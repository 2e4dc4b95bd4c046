//! The boundary to the JSON library for writing: a JSON value is built from
//! one layer at a time and printed. Nothing here is proved: each item says
//! what is taken on trust of the library.

use crate::text::text_outcome;
use serde_json::Value;
use vstd::prelude::*;

verus! {

#[verifier::external_type_specification]
#[verifier::external_body]
pub struct ExValue(Value);

/// One layer of a JSON value to build: its kind and what it holds. The
/// elements of an array and the members of an object are values built before.
pub enum JsonNode {
    Bool(bool),
    Text(String),
    Array(Vec<Value>),
    Object(Vec<(String, Value)>),
}

pub ghost enum JsonNodeView {
    Bool(bool),
    Text(Seq<char>),
    Array(Seq<Value>),
    Object(Seq<(Seq<char>, Value)>),
}

impl View for JsonNode {
    type V = JsonNodeView;

    open spec fn view(&self) -> JsonNodeView {
        match self {
            JsonNode::Bool(flag) => JsonNodeView::Bool(*flag),
            JsonNode::Text(text) => JsonNodeView::Text(text@),
            JsonNode::Array(items) => JsonNodeView::Array(items@),
            JsonNode::Object(members) => JsonNodeView::Object(
                Seq::new(members@.len(), |i: int| (members@[i].0@, members@[i].1)),
            ),
        }
    }
}

/// The JSON value that is built from one layer.
pub uninterp spec fn json_value(node: JsonNodeView) -> Value;

/// The JSON text of a value with line breaks and indentation, or the message
/// with which the JSON library refuses to print it.
pub uninterp spec fn json_printed(value: Value) -> Result<Seq<char>, Seq<char>>;

/// Builds the variant of `serde_json::Value` that stands for one layer; the
/// members of an object are collected into a `serde_json::Map`, which walks
/// them in the order in which they came (the library's feature
/// `preserve_order`). Taken on trust: the value is a function of the layer
/// alone.
#[verifier::external_body]
pub(crate) fn json_wrap(node: JsonNode) -> (value: Value)
    ensures
        value == json_value(node@),
{
    match node {
        JsonNode::Bool(flag) => Value::Bool(flag),
        JsonNode::Text(text) => Value::String(text),
        JsonNode::Array(items) => Value::Array(items),
        JsonNode::Object(members) => Value::Object(members.into_iter().collect()),
    }
}

/// Calls `serde_json::to_string_pretty`. Taken on trust: the outcome is a
/// function of the value alone, the text or the library's error shown as text.
#[verifier::external_body]
pub(crate) fn json_print(value: &Value) -> (outcome: Result<String, String>)
    ensures
        text_outcome(outcome) == json_printed(*value),
{
    serde_json::to_string_pretty(value).map_err(|error| error.to_string())
}

} // verus!
