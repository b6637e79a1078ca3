use slack_morphism_models::blocks::{
    SlackBlock, SlackBlockMarkDownText, SlackBlockText, SlackSectionBlock,
};
use slack_morphism_models::SlackMessageContent;
use slack_paste::message::{preformatted, render_message};

/// A message of one section block that holds `markdown` and nothing else.
fn one_section(markdown: &str) -> SlackMessageContent {
    SlackMessageContent {
        text: None,
        blocks: Some(vec![SlackBlock::Section(SlackSectionBlock {
            block_id: None,
            text: Some(SlackBlockText::MarkDown(SlackBlockMarkDownText {
                text: markdown.to_string(),
                verbatim: None,
            })),
            fields: None,
            accessory: None,
        })]),
    }
}

/// The markdown of the only block of `content`.
fn only_markdown(content: &SlackMessageContent) -> String {
    let blocks = content.blocks.as_ref().expect("blocks");
    assert_eq!(blocks.len(), 1);
    match &blocks[0] {
        SlackBlock::Section(section) => match &section.text {
            Some(SlackBlockText::MarkDown(markdown)) => markdown.text.clone(),
            other => panic!("not markdown: {:?}", other),
        },
        other => panic!("not a section: {:?}", other),
    }
}

/// The text between the two fences of `markdown`.
fn body(markdown: &str) -> &str {
    assert!(markdown.len() >= 6);
    assert!(markdown.starts_with("```"));
    assert!(markdown.ends_with("```"));
    &markdown[3..markdown.len() - 3]
}

#[test]
fn preformatted_wraps_in_fences() {
    assert_eq!(preformatted("hello"), "```hello```");
}

#[test]
fn preformatted_of_empty_text_is_two_fences() {
    assert_eq!(preformatted(""), "``````");
}

#[test]
fn preformatted_keeps_whitespace_and_line_breaks() {
    let text = "  a\tb \n\n  c\r\n";
    assert_eq!(preformatted(text), format!("```{}```", text));
    assert_eq!(body(&preformatted(text)), text);
}

#[test]
fn preformatted_does_not_escape_markdown() {
    let text = "*bold* _it_ `code` <b> &amp; ```";
    assert_eq!(body(&preformatted(text)), text);
}

#[test]
fn preformatted_keeps_non_ascii_text() {
    let text = "naïve ☃ 日本語";
    let markdown = preformatted(text);
    assert_eq!(markdown.len(), text.len() + 6);
    assert_eq!(body(&markdown).as_bytes(), text.as_bytes());
}

#[test]
fn render_message_is_one_markdown_section() {
    assert_eq!(render_message("hello\nworld"), one_section("```hello\nworld```"));
}

#[test]
fn render_message_has_no_fallback_text() {
    assert_eq!(render_message("hello").text, None);
}

#[test]
fn render_message_body_is_the_input() {
    let text = "fn main() {\n    println!(\"hi\");\n}\n";
    let content = render_message(text);
    assert_eq!(body(&only_markdown(&content)), text);
}

#[test]
fn render_message_of_empty_text_is_an_empty_block() {
    let content = render_message("");
    assert_eq!(content, one_section("``````"));
    assert_eq!(body(&only_markdown(&content)), "");
}

#[test]
fn render_message_differs_from_its_input() {
    let content = render_message("hello");
    assert_ne!(only_markdown(&content), "hello");
    assert_ne!(content, SlackMessageContent::new().with_text("hello".to_string()));
}
