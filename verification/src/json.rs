//! A JSON document tree, read with `serde_json`.
use vstd::prelude::*;

verus! {

/// A JSON value. Numbers keep their decimal text.
#[derive(Debug, PartialEq, Eq)]
pub enum JsonValue {
    Null,
    Bool(bool),
    Number(String),
    Text(String),
    Array(Vec<JsonValue>),
    Object(Vec<JsonMember>),
}

/// One `"key": value` member of a JSON object.
#[derive(Debug, PartialEq, Eq)]
pub struct JsonMember {
    pub key: String,
    pub value: JsonValue,
}

/// The value of `serde_json::Value`, declared so that it can be handed between trusted items.
#[verifier::external_type_specification]
#[verifier::external_body]
pub struct ExJsonTree(serde_json::Value);

/// What `serde_json` reads from a document: its tree, or the text of its error.
pub uninterp spec fn json_document(text: Seq<char>) -> Result<JsonValue, Seq<char>>;

/// A read outcome with its error text as a character sequence.
pub open spec fn json_outcome(r: Result<JsonValue, String>) -> Result<JsonValue, Seq<char>> {
    match r {
        Ok(v) => Ok(v),
        Err(e) => Err(e@),
    }
}

/// Reads a JSON document with `serde_json::from_str::<serde_json::Value>`.
///
/// The contract claims only that the outcome is a function of the text: the
/// tree (object members in `serde_json`'s map order, repeated keys merged) or
/// the rendering of `serde_json::Error`. What that tree is for a given text
/// is `serde_json`'s grammar and is not stated here.
#[verifier::external_body]
pub fn parse_json_document(text: &str) -> (r: Result<JsonValue, String>)
    ensures
        json_outcome(r) == json_document(text@),
{
    match serde_json::from_str::<serde_json::Value>(text) {
        Ok(value) => Ok(json_value_from(value)),
        Err(error) => Err(error.to_string()),
    }
}

/// Converts `serde_json::Value` into [`JsonValue`], one variant per arm
/// (`serde_json::Number` keeps its `to_string` text). Only
/// [`parse_json_document`] calls it; nothing is promised of it on its own.
#[verifier::external_body]
fn json_value_from(value: serde_json::Value) -> JsonValue {
    match value {
        serde_json::Value::Null => JsonValue::Null,
        serde_json::Value::Bool(b) => JsonValue::Bool(b),
        serde_json::Value::Number(n) => JsonValue::Number(n.to_string()),
        serde_json::Value::String(s) => JsonValue::Text(s),
        serde_json::Value::Array(items) => JsonValue::Array(items.into_iter().map(json_value_from).collect()),
        serde_json::Value::Object(map) => JsonValue::Object(
            map.into_iter().map(|(key, v)| JsonMember { key, value: json_value_from(v) }).collect(),
        ),
    }
}

} // verus!
