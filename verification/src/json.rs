//! JSON documents as plain data.

use vstd::prelude::*;
use crate::outside::{json_from_str, json_parse, json_tree_of};

verus! {

/// A JSON document.
///
/// Numbers come in three forms: an integer that is zero or more, an integer
/// below zero, and anything else, which is kept as its JSON text.
#[derive(Debug, PartialEq, Eq)]
pub enum JsonValue {
    Null,
    Bool(bool),
    PosInt(u64),
    NegInt(i64),
    Float(String),
    String(String),
    Array(Vec<JsonValue>),
    Object(Vec<JsonField>),
}

/// One member of a JSON object.
#[derive(Debug, PartialEq, Eq)]
pub struct JsonField {
    pub name: String,
    pub value: JsonValue,
}

/// Reads a JSON text into a document, or `None` where the text is not JSON.
pub fn parse_json(text: &str) -> (tree: Option<JsonValue>)
    ensures
        tree == json_parse(text@),
{
    match json_from_str(text) {
        Ok(document) => Some(json_tree_of(&document)),
        Err(_) => None,
    }
}

} // verus!
