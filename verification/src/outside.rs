//! The calls into code outside this library, each with the contract that
//! the library believes of it. Nothing in this file is proved: the rest of
//! the library is proved from what stands here.

use vstd::prelude::*;
use serde_json::Value;
use std::time::Duration;
use crate::json::{JsonField, JsonValue};
use crate::text::{same_ignoring_ascii_case, text_view};

verus! {

/// `serde_json::Value`, handed on without a look inside.
#[verifier::external_type_specification]
#[verifier::external_body]
pub struct ExJsonDocument(serde_json::Value);

/// `serde_json::Error`, handed on without a look inside.
#[verifier::external_type_specification]
#[verifier::external_body]
pub struct ExJsonError(serde_json::Error);

/// What `serde_json::from_str` makes of a text: the document it reads, or
/// `None` where it reports an error.
pub uninterp spec fn json_parse(text: Seq<char>) -> Option<JsonValue>;

/// The document that a `serde_json::Value` holds.
pub uninterp spec fn json_tree(document: Value) -> JsonValue;

/// What `serde_json::to_string` prints for a document, or `None` where it
/// reports an error.
pub uninterp spec fn json_text(tree: JsonValue) -> Option<Seq<char>>;

/// The reason phrase that `reqwest::StatusCode::canonical_reason` gives for
/// a status code; `None` where it knows none, or where the number is no
/// status code to `reqwest::StatusCode::from_u16`.
pub uninterp spec fn canonical_reason(status: u16) -> Option<Seq<char>>;

/// Whether `Duration::is_zero` holds of a duration.
pub uninterp spec fn duration_is_zero(duration: Duration) -> bool;

/// Calls `serde_json::from_str` for a `serde_json::Value`. The contract only
/// gives the outcome its name: the call succeeds exactly where `json_parse`
/// is `Some`, and the value then holds that document.
#[verifier::external_body]
pub(crate) fn json_from_str(text: &str) -> (parsed: Result<Value, serde_json::Error>)
    ensures
        match parsed {
            Ok(document) => json_parse(text@) == Some(json_tree(document)),
            Err(_) => json_parse(text@) is None,
        },
{
    serde_json::from_str::<Value>(text)
}

/// Calls `serde_json::to_string` on a `serde_json::Value`. The contract only
/// gives the outcome its name: the text is `json_text` of the document held.
#[verifier::external_body]
pub(crate) fn json_to_string(document: &Value) -> (printed: Result<String, serde_json::Error>)
    ensures
        match printed {
            Ok(text) => json_text(json_tree(*document)) == Some(text@),
            Err(_) => json_text(json_tree(*document)) is None,
        },
{
    serde_json::to_string(document)
}

/// Copies a `serde_json::Value` into a `JsonValue`, variant by variant, and
/// so on for the values inside it. A number becomes `PosInt` where
/// `Number::as_u64` gives it, else `NegInt` where `Number::as_i64` gives it,
/// else `Float` with the text that the number prints as. Object members
/// come in the order in which the map hands them out.
#[verifier::external_body]
pub(crate) fn json_tree_of(document: &Value) -> (tree: JsonValue)
    ensures
        tree == json_tree(*document),
{
    match document {
        Value::Null => JsonValue::Null,
        Value::Bool(b) => JsonValue::Bool(*b),
        Value::Number(n) => match (n.as_u64(), n.as_i64()) {
            (Some(u), _) => JsonValue::PosInt(u),
            (_, Some(i)) => JsonValue::NegInt(i),
            _ => JsonValue::Float(n.to_string()),
        },
        Value::String(s) => JsonValue::String(s.clone()),
        Value::Array(a) => JsonValue::Array(a.iter().map(json_tree_of).collect()),
        Value::Object(m) => JsonValue::Object(
            m.iter().map(|(k, v)| JsonField { name: k.clone(), value: json_tree_of(v) }).collect(),
        ),
    }
}

/// Looks up the reason phrase of a status code: turns the number into a
/// `reqwest::StatusCode` and calls `canonical_reason` on it. The contract
/// only gives the outcome its name.
#[verifier::external_body]
pub(crate) fn reason_phrase(status: u16) -> (reason: Option<String>)
    ensures
        text_view(reason) == canonical_reason(status),
{
    reqwest::StatusCode::from_u16(status).ok().and_then(|code| code.canonical_reason()).map(String::from)
}

/// `Duration::is_zero`: the contract only gives the answer its name.
pub assume_specification[ Duration::is_zero ](duration: &Duration) -> (zero: bool)
    ensures
        zero == duration_is_zero(*duration),
;

/// `str::eq_ignore_ascii_case` tells whether two strings are the same once
/// the ASCII letters `A` to `Z` of both are mapped to `a` to `z`; all other
/// characters count as they are.
pub assume_specification[ str::eq_ignore_ascii_case ](text: &str, other: &str) -> (same: bool)
    ensures
        same == same_ignoring_ascii_case(text@, other@),
;

} // verus!
