//! The stored credential and its TOML form.
//!
//! The config file is a TOML document with one recognised key,
//! `slack_token`, whose value is a string. Other keys are ignored when
//! reading. TOML itself is left to the `toml` crate; this module decides what
//! is asked of it and what its answers mean.
//!
//! The crate's parser calls itself once for every level of nesting in a
//! text, so a text that nests without end would exhaust the stack. A text is
//! therefore only parsed when it nests no deeper than `MAX_NESTING`; a text
//! that does is treated as malformed.

use crate::error::{result_view, Failure, FailureView};
use crate::nesting::{lemma_flat_text_has_no_depth, measure_nesting, nesting_depth, MAX_NESTING};
use vstd::prelude::*;
use vstd::string::*;
use vstd::utf8::{decode_utf8, encode_utf8, encode_utf8_decode_utf8, valid_utf8};

verus! {

/// A TOML value as the `toml` crate holds it; here always a whole document.
/// Verus sees it only through `document_strings`.
#[verifier::external_type_specification]
#[verifier::external_body]
pub struct ExTomlValue(toml::Value);

/// Why the `toml` crate could not read a text.
#[verifier::external_type_specification]
#[verifier::external_body]
pub struct ExTomlDeError(toml::de::Error);

/// Why the `toml` crate could not write a value.
#[verifier::external_type_specification]
#[verifier::external_body]
pub struct ExTomlSerError(toml::ser::Error);

/// The top-level entries of a document whose value is a string: each such
/// key with its string. Keys with a value of another kind are not in the map,
/// and a value that is no table has no entries.
pub uninterp spec fn document_strings(document: toml::Value) -> Map<Seq<char>, Seq<char>>;

/// What `toml::from_str` makes of `text` as a value: `None` where it rejects
/// the text, else the string entries of the document's top level.
pub uninterp spec fn toml_strings(text: Seq<char>) -> Option<Map<Seq<char>, Seq<char>>>;

/// What `toml::to_string_pretty` writes for a table whose one entry is `key`
/// with the string `value`.
pub uninterp spec fn toml_pretty_entry(key: Seq<char>, value: Seq<char>) -> Seq<char>;

/// Whether `text` nests deeper than is parsed.
pub open spec fn nests_too_deep(text: Seq<char>) -> bool {
    nesting_depth(encode_utf8(text)) > MAX_NESTING
}

/// The credential: the bearer token that identifies the caller to Slack. It
/// is kept as given; only Slack decides whether it is valid.
#[derive(Debug, PartialEq, Eq)]
pub struct Config {
    pub slack_token: String,
}

/// `Config` over character sequences.
pub struct ConfigView {
    pub slack_token: Seq<char>,
}

impl View for Config {
    type V = ConfigView;

    open spec fn view(&self) -> ConfigView {
        ConfigView { slack_token: self.slack_token@ }
    }
}

/// The one key that the config file is read for.
pub open spec fn token_key() -> Seq<char> {
    "slack_token"@
}

/// The credential that a parsed document holds. A text that is no TOML, or
/// in which `slack_token` is absent or not a string, is malformed; whatever
/// else the document holds does not matter.
pub open spec fn config_of_document(document: Option<Map<Seq<char>, Seq<char>>>) -> Result<
    ConfigView,
    FailureView,
> {
    match document {
        Some(strings) => if strings.contains_key(token_key()) {
            Ok(ConfigView { slack_token: strings[token_key()] })
        } else {
            Err(FailureView::ConfigMalformed)
        },
        None => Err(FailureView::ConfigMalformed),
    }
}

/// The credential that the text of a config file holds. A text that nests
/// too deep is malformed without more ado.
pub open spec fn config_of_text(text: Seq<char>) -> Result<ConfigView, FailureView> {
    if nests_too_deep(text) {
        Err(FailureView::ConfigMalformed)
    } else {
        config_of_document(toml_strings(text))
    }
}

/// The credential that the bytes of a config file hold. Bytes that are no
/// UTF-8 are malformed; others count as the text that they spell.
pub open spec fn config_of_bytes(bytes: Seq<u8>) -> Result<ConfigView, FailureView> {
    if valid_utf8(bytes) {
        config_of_text(decode_utf8(bytes))
    } else {
        Err(FailureView::ConfigMalformed)
    }
}

/// The text of the config file for a credential: what the TOML writer makes
/// of the one entry `slack_token`.
pub open spec fn text_of_config(config: ConfigView) -> Seq<char> {
    toml_pretty_entry(token_key(), config.slack_token)
}

/// Calls `toml::from_str` for a `toml::Value`. It fails exactly on the texts
/// that the crate does not take as a TOML document, a key given twice in one
/// table among them; otherwise the value is the document. The parser and the
/// making of the value call themselves once per level of nesting. The crate
/// finds comments and strings as `nesting_depth` does, and opens and closes
/// levels where it does, so within the bound the calls nest no deeper than a
/// few levels beyond `MAX_NESTING`.
#[verifier::external_body]
fn parse_document(text: &str) -> (parsed: Result<toml::Value, toml::de::Error>)
    requires
        nesting_depth(text.spec_bytes()) <= MAX_NESTING,
    ensures
        match parsed {
            Ok(document) => toml_strings(text@) == Some(document_strings(document)),
            Err(_) => toml_strings(text@) is None,
        },
{
    toml::from_str::<toml::Value>(text)
}

/// Calls `Value::get` and hands out the entry if it is a string: `Some` with
/// a copy of the string under `key`, `None` when the key is absent or holds a
/// value of another kind.
#[verifier::external_body]
fn document_string(document: &toml::Value, key: &str) -> (found: Option<String>)
    ensures
        match found {
            Some(value) => document_strings(*document).contains_key(key@) && document_strings(
                *document,
            )[key@] == value@,
            None => !document_strings(*document).contains_key(key@),
        },
{
    match document.get(key) {
        Some(toml::Value::String(value)) => Some(value.clone()),
        _ => None,
    }
}

/// Calls `toml::to_string_pretty` on a table whose one entry is `key` with
/// the string `value`. The writer refuses values that TOML cannot hold, keys
/// that are no strings and values that follow a table; a single string under
/// a string key is none of these, and writing into a `String` cannot fail, so
/// the call succeeds. What it writes depends on the key and the value alone.
#[verifier::external_body]
fn pretty_entry(key: &str, value: &str) -> (written: Result<String, toml::ser::Error>)
    ensures
        match written {
            Ok(text) => text@ == toml_pretty_entry(key@, value@),
            Err(_) => false,
        },
{
    let mut table = toml::value::Table::new();
    table.insert(key.to_string(), toml::Value::String(value.to_string()));
    toml::to_string_pretty(&table)
}

/// Calls `std::str::from_utf8`: `Some` with the text that `bytes` spell when
/// they are valid UTF-8, `None` when they are not.
#[verifier::external_body]
fn as_text(bytes: &[u8]) -> (text: Option<&str>)
    ensures
        match text {
            Some(text) => valid_utf8(bytes@) && text.spec_bytes() == bytes@,
            None => !valid_utf8(bytes@),
        },
{
    match std::str::from_utf8(bytes) {
        Ok(text) => Some(text),
        Err(_) => None,
    }
}

impl Config {
    /// The credential in a document that was read: the string under
    /// `slack_token`. Without such a string the config is malformed.
    pub fn from_document(document: &toml::Value) -> (config: Result<Config, Failure>)
        ensures
            result_view(config) == config_of_document(Some(document_strings(*document))),
    {
        match document_string(document, "slack_token") {
            Some(slack_token) => Ok(Config { slack_token }),
            None => Err(Failure::ConfigMalformed),
        }
    }

    /// The TOML text to store for this credential: one entry, `slack_token`.
    pub fn to_toml(&self) -> (text: String)
        ensures
            text@ == text_of_config(self@),
    {
        match pretty_entry("slack_token", self.slack_token.as_str()) {
            Ok(text) => text,
            Err(_) => unreached(),
        }
    }
}

/// Reads the credential from the text of a config file.
pub fn parse_config(text: &str) -> (config: Result<Config, Failure>)
    ensures
        result_view(config) == config_of_text(text@),
{
    if measure_nesting(text) > MAX_NESTING {
        return Err(Failure::ConfigMalformed);
    }
    match parse_document(text) {
        Ok(document) => Config::from_document(&document),
        Err(_) => Err(Failure::ConfigMalformed),
    }
}

/// Reads the credential from the bytes of a config file.
pub fn parse_config_bytes(bytes: &[u8]) -> (config: Result<Config, Failure>)
    ensures
        result_view(config) == config_of_bytes(bytes@),
{
    match as_text(bytes) {
        Some(text) => {
            proof {
                encode_utf8_decode_utf8(text@);
            }
            parse_config(text)
        },
        None => Err(Failure::ConfigMalformed),
    }
}

/// Reading fails in one way only: whatever is wrong with the text, the
/// config is reported as malformed.
pub proof fn lemma_unreadable_is_malformed(text: Seq<char>)
    ensures
        config_of_text(text) is Err ==> config_of_text(text) == Err::<ConfigView, FailureView>(
            FailureView::ConfigMalformed,
        ),
        toml_strings(text) is None ==> config_of_text(text) is Err,
        nests_too_deep(text) ==> config_of_text(text) is Err,
{
}

/// A text that nests within the bound and that the TOML parser reads as a
/// document with a string under `slack_token` gives that string as the
/// credential, whatever else the text holds.
pub proof fn lemma_readable_gives_token(text: Seq<char>, strings: Map<Seq<char>, Seq<char>>)
    requires
        !nests_too_deep(text),
        toml_strings(text) == Some(strings),
        strings.contains_key(token_key()),
    ensures
        config_of_text(text) == Ok::<ConfigView, FailureView>(
            ConfigView { slack_token: strings[token_key()] },
        ),
{
}

/// A text without `[`, `{` and `.` is never refused for its depth.
pub proof fn lemma_flat_text_is_parsed(text: Seq<char>)
    requires
        forall|i: int|
            0 <= i < encode_utf8(text).len() ==> encode_utf8(text)[i] != 0x5b && encode_utf8(
                text,
            )[i] != 0x7b && encode_utf8(text)[i] != 0x2e,
    ensures
        !nests_too_deep(text),
        config_of_text(text) == config_of_document(toml_strings(text)),
{
    lemma_flat_text_has_no_depth(encode_utf8(text));
}

/// Bytes that are no UTF-8 are malformed, and bytes that are UTF-8 are read
/// as their text.
pub proof fn lemma_bytes_are_read_as_text(text: Seq<char>)
    ensures
        config_of_bytes(encode_utf8(text)) == config_of_text(text),
        forall|bytes: Seq<u8>| !valid_utf8(bytes) ==> #[trigger] config_of_bytes(bytes) == Err::<
            ConfigView,
            FailureView,
        >(FailureView::ConfigMalformed),
{
    vstd::utf8::encode_utf8_valid_utf8(text);
    encode_utf8_decode_utf8(text);
}

/// Keys other than `slack_token` are ignored: two documents that agree on
/// that key hold the same credential.
pub proof fn lemma_other_keys_ignored(
    first: Map<Seq<char>, Seq<char>>,
    second: Map<Seq<char>, Seq<char>>,
)
    requires
        first.contains_key(token_key()) == second.contains_key(token_key()),
        first.contains_key(token_key()) ==> first[token_key()] == second[token_key()],
    ensures
        config_of_document(Some(first)) == config_of_document(Some(second)),
{
}

/// The token is read as it stands in the document, whatever it holds.
pub proof fn lemma_token_is_kept(strings: Map<Seq<char>, Seq<char>>, token: Seq<char>)
    ensures
        config_of_document(Some(strings.insert(token_key(), token))) == Ok::<
            ConfigView,
            FailureView,
        >(ConfigView { slack_token: token }),
{
}

} // verus!
