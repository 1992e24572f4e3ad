//! From JSON text to record declarations: parsing is left to `serde_json`.

use vstd::prelude::*;
use crate::inference::{generate_types, generated};
use crate::json::{number_kind, JsonValue};
use crate::language::LanguageFormatter;

verus! {

/// `serde_json::Value`, of which nothing is read here.
#[verifier::external_type_specification]
#[verifier::external_body]
pub struct ExValue(serde_json::Value);

/// `serde_json::Error`, of which only line and column are asked.
#[verifier::external_type_specification]
#[verifier::external_body]
pub struct ExError(serde_json::Error);

/// The document that the parser makes of a text; `None` for a text that
/// the parser does not accept. It accepts no text that is not one
/// well-formed JSON value, and not every text that is: it has limits of its
/// own on how deep values nest and on how large a number may be.
pub uninterp spec fn parsed_document(text: Seq<char>) -> Option<JsonValue>;

/// Where in a text the parser gave up. Lines are counted from one; so are
/// columns, but for an error at the very start of a line.
#[derive(Clone, Copy, Debug, PartialEq, Eq, Structural)]
pub struct ParseError {
    pub line: usize,
    pub column: usize,
}

/// Copies a `serde_json::Value` into a `JsonValue`, variant by variant. A
/// number counts as floating-point where `Number::is_f64` says so; the
/// members of an object come in the order in which `Map::iter` yields them.
#[verifier::external_body]
fn from_parsed(value: &serde_json::Value) -> JsonValue {
    match value {
        serde_json::Value::Null => JsonValue::Null,
        serde_json::Value::Bool(b) => JsonValue::Bool(*b),
        serde_json::Value::Number(n) => JsonValue::Number(number_kind(n.is_f64())),
        serde_json::Value::String(s) => JsonValue::String(s.clone()),
        serde_json::Value::Array(a) => JsonValue::Array(a.iter().map(from_parsed).collect()),
        serde_json::Value::Object(o) => JsonValue::Object(
            o.iter().map(|(k, v)| (k.clone(), from_parsed(v))).collect(),
        ),
    }
}

/// Calls `serde_json::from_str` for a `serde_json::Value`. The parser reads
/// nothing but the text, so the same text always gives the same outcome:
/// the contract names it `parsed_document(text)` and claims no more.
#[verifier::external_body]
fn parse_text(text: &str) -> (outcome: Result<JsonValue, serde_json::Error>)
    ensures
        match outcome {
            Ok(value) => parsed_document(text@) == Some(value),
            Err(_) => parsed_document(text@) is None,
        },
{
    match serde_json::from_str::<serde_json::Value>(text) {
        Ok(value) => Ok(from_parsed(&value)),
        Err(error) => Err(error),
    }
}

/// Calls `serde_json::Error::line`.
#[verifier::external_body]
fn error_line(error: &serde_json::Error) -> usize {
    error.line()
}

/// Calls `serde_json::Error::column`.
#[verifier::external_body]
fn error_column(error: &serde_json::Error) -> usize {
    error.column()
}

/// Parses a JSON text. It fails exactly on a text that the parser does not
/// accept, and then says where the parser stopped.
pub fn parse_json(text: &str) -> (outcome: Result<JsonValue, ParseError>)
    ensures
        match outcome {
            Ok(value) => parsed_document(text@) == Some(value),
            Err(_) => parsed_document(text@) is None,
        },
{
    match parse_text(text) {
        Ok(value) => Ok(value),
        Err(error) => Err(ParseError { line: error_line(&error), column: error_column(&error) }),
    }
}

/// Renders the record declarations of the document that `text` holds, as
/// `generate_types` does for the parsed document.
pub fn generate_from_text<L: LanguageFormatter>(text: &str, lang: &L) -> (outcome: Result<
    Vec<String>,
    ParseError,
>)
    ensures
        match outcome {
            Ok(records) => parsed_document(text@) is Some && records.deep_view() == generated(
                lang,
                parsed_document(text@)->Some_0,
            ),
            Err(_) => parsed_document(text@) is None,
        },
{
    match parse_json(text) {
        Ok(value) => Ok(generate_types(value, lang)),
        Err(error) => Err(error),
    }
}

} // verus!
