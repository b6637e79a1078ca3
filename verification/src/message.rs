//! Message rendering: captured text becomes one preformatted block.

use slack_morphism_models::blocks::{SlackBlockMarkDownText, SlackSectionBlock};
use slack_morphism_models::SlackMessageContent;
use vstd::prelude::*;
use vstd::string::*;

verus! {

/// Slack's message content. Verus sees it only through `content_text` and
/// `content_blocks`.
#[verifier::external_type_specification]
#[verifier::external_body]
pub struct ExSlackMessageContent(SlackMessageContent);

/// The plain fallback text of a message, if it has one.
pub uninterp spec fn content_text(content: SlackMessageContent) -> Option<Seq<char>>;

/// The blocks of a message, in order. A section block that holds a markdown
/// text and nothing else stands as `Some` of that text, any other block as
/// `None`. A message without a block list has no blocks.
pub uninterp spec fn content_blocks(content: SlackMessageContent) -> Seq<Option<Seq<char>>>;

/// The marker that opens and closes a preformatted span in Slack markdown.
pub open spec fn fence() -> Seq<char> {
    seq!['`', '`', '`']
}

/// `text` inside a preformatted span.
pub open spec fn preformatted_text(text: Seq<char>) -> Seq<char> {
    fence() + text + fence()
}

/// What stands between the fences of a preformatted span: the markdown
/// without its first and its last three characters. For rendered text this is
/// the text that was wrapped. It is not always what Slack shows: a text that
/// holds a fence of its own ends the span early, and Slack reads `&`, `<` and
/// `>` in its own way.
pub open spec fn preformatted_body(markdown: Seq<char>) -> Seq<char>
    recommends
        markdown.len() >= 2 * fence().len(),
{
    markdown.subrange(fence().len() as int, markdown.len() - fence().len())
}

/// Wraps `text` in fences, adding and changing nothing else.
pub fn preformatted(text: &str) -> (markdown: String)
    ensures
        markdown@ == preformatted_text(text@),
{
    proof {
        reveal_strlit("```");
        assert("```"@ =~= fence());
    }
    let mut markdown = String::from_str("```");
    markdown.append(text);
    markdown.append("```");
    markdown
}

/// Builds a message with `SlackMessageContent::new`, `with_blocks`,
/// `SlackSectionBlock::new`, `with_text` and `SlackBlockMarkDownText::new`:
/// no fallback text, and a single section block whose only content is
/// `markdown` as markdown text. Those builders set the field they are named
/// after and leave every optional field empty.
#[verifier::external_body]
fn section_message(markdown: String) -> (content: SlackMessageContent)
    ensures
        content_text(content) is None,
        content_blocks(content) == seq![Some(markdown@)],
{
    let text = SlackBlockMarkDownText::new(markdown);
    let section = SlackSectionBlock::new().with_text(text.into());
    SlackMessageContent::new().with_blocks(vec![section.into()])
}

/// Renders captured text as message content: exactly one block, showing
/// `text` preformatted and otherwise untouched. Empty text gives an empty
/// preformatted block.
pub fn render_message(text: &str) -> (content: SlackMessageContent)
    ensures
        content_text(content) is None,
        content_blocks(content) == seq![Some(preformatted_text(text@))],
{
    section_message(preformatted(text))
}

/// Rendering loses nothing: what stands between the fences is the text that
/// went in, character for character.
pub proof fn lemma_preformatted_body(text: Seq<char>)
    ensures
        preformatted_body(preformatted_text(text)) == text,
        preformatted_text(text).len() == text.len() + 6,
{
}

/// Different texts render differently.
pub proof fn lemma_preformatted_injective(a: Seq<char>, b: Seq<char>)
    requires
        preformatted_text(a) == preformatted_text(b),
    ensures
        a == b,
{
    lemma_preformatted_body(a);
    lemma_preformatted_body(b);
}

} // verus!
