//! JSON values as the adapter handles them.
//!
//! Values travel as `serde_json::Value`. The adapter never looks inside one
//! directly: it reads a value one level at a time as a [`JsonNode`], and its
//! contracts speak of that level through [`json_shape`].

use vstd::prelude::*;

verus! {

/// `serde_json::Value`, carried through without looking inside.
#[verifier::external_type_specification]
#[verifier::external_body]
pub struct ExJsonValue(serde_json::Value);

/// `serde_json::Number`, carried through without looking inside.
#[verifier::external_type_specification]
#[verifier::external_body]
pub struct ExJsonNumber(serde_json::Number);

/// The outermost level of a JSON value: its kind, and the parts directly
/// below it. Members of arrays and objects stay whole values.
#[derive(Debug, PartialEq)]
pub enum JsonNode {
    Null,
    Bool(bool),
    Number(serde_json::Number),
    String(String),
    Array(Vec<serde_json::Value>),
    /// Members in the order in which the object yields them.
    Object(Vec<(String, serde_json::Value)>),
}

/// The mathematical counterpart of [`JsonNode`].
pub enum JsonShape {
    Null,
    Bool(bool),
    Number(serde_json::Number),
    String(Seq<char>),
    Array(Seq<serde_json::Value>),
    Object(Seq<(Seq<char>, serde_json::Value)>),
}

/// The members of an object with each key taken as a sequence of characters.
pub open spec fn member_views(members: Seq<(String, serde_json::Value)>) -> Seq<
    (Seq<char>, serde_json::Value),
> {
    members.map_values(|m: (String, serde_json::Value)| (m.0@, m.1))
}

impl View for JsonNode {
    type V = JsonShape;

    open spec fn view(&self) -> JsonShape {
        match self {
            JsonNode::Null => JsonShape::Null,
            JsonNode::Bool(b) => JsonShape::Bool(*b),
            JsonNode::Number(n) => JsonShape::Number(*n),
            JsonNode::String(s) => JsonShape::String(s@),
            JsonNode::Array(items) => JsonShape::Array(items@),
            JsonNode::Object(members) => JsonShape::Object(member_views(members@)),
        }
    }
}

/// The outermost level of `value`: which variant of `serde_json::Value` it
/// is, and what that variant holds.
pub uninterp spec fn json_shape(value: serde_json::Value) -> JsonShape;

/// The `serde_json::Value` assembled from one level: the variant of that
/// kind holding those parts, an object being collected from its members.
pub uninterp spec fn json_built(shape: JsonShape) -> serde_json::Value;

/// The compact JSON text that `serde_json` writes for `value`.
pub uninterp spec fn json_text(value: serde_json::Value) -> Seq<char>;

/// What `serde_json::from_str` makes of `text`: the value it stands for, or
/// `None` where it is not one complete JSON document.
pub uninterp spec fn json_parsed(text: Seq<char>) -> Option<serde_json::Value>;

/// What `serde_json::Number::as_i64` returns for `n`: the number as an
/// `i64`, where it is an integer in that range.
pub uninterp spec fn number_i64(n: serde_json::Number) -> Option<i64>;

/// The decimal text that `serde_json` writes for the number `n`.
pub uninterp spec fn number_decimal(n: serde_json::Number) -> Seq<char>;

/// The JSON number that `serde_json` makes from the integer `i`.
pub uninterp spec fn number_of_i64(i: i64) -> serde_json::Number;

/// No two members of an object share a key.
pub open spec fn distinct_keys(members: Seq<(Seq<char>, serde_json::Value)>) -> bool {
    forall|i: int, j: int|
        0 <= i < j < members.len() ==> (#[trigger] members[i]).0 != (#[trigger] members[j]).0
}

/// A value is the one that its own outermost level assembles to.
pub open spec fn json_coherent(value: serde_json::Value) -> bool {
    json_built(json_shape(value)) == value
}

/// Trusted: matches on the variants of `serde_json::Value` and copies out
/// what the variant holds; an object's members come in the order of
/// `Map::iter`, and a `Map` holds each key once. Putting the same parts
/// together again gives an equal value.
#[verifier::external_body]
pub(crate) fn read_node(value: &serde_json::Value) -> (node: JsonNode)
    ensures
        node@ == json_shape(*value),
        json_built(node@) == *value,
        node@ matches JsonShape::Object(members) ==> distinct_keys(members),
{
    match value {
        serde_json::Value::Null => JsonNode::Null,
        serde_json::Value::Bool(b) => JsonNode::Bool(*b),
        serde_json::Value::Number(n) => JsonNode::Number(n.clone()),
        serde_json::Value::String(s) => JsonNode::String(s.clone()),
        serde_json::Value::Array(items) => JsonNode::Array(items.clone()),
        serde_json::Value::Object(members) => JsonNode::Object(
            members.iter().map(|(k, v)| (k.clone(), v.clone())).collect(),
        ),
    }
}

/// Trusted: builds the variant of `serde_json::Value` for each kind of node;
/// an object is collected into a `serde_json::Map`, which keeps one member
/// per key. For every kind but an object, reading the result gives the node
/// back.
#[verifier::external_body]
pub(crate) fn build_value(node: JsonNode) -> (value: serde_json::Value)
    ensures
        value == json_built(node@),
        !(node@ is Object) ==> json_shape(value) == node@,
{
    match node {
        JsonNode::Null => serde_json::Value::Null,
        JsonNode::Bool(b) => serde_json::Value::Bool(b),
        JsonNode::Number(n) => serde_json::Value::Number(n),
        JsonNode::String(s) => serde_json::Value::String(s),
        JsonNode::Array(items) => serde_json::Value::Array(items),
        JsonNode::Object(members) => serde_json::Value::Object(members.into_iter().collect()),
    }
}

/// Trusted: `Value::to_string`, the compact serialization of `serde_json`.
#[verifier::external_body]
pub(crate) fn write_json(value: &serde_json::Value) -> (text: String)
    ensures
        text@ == json_text(*value),
{
    value.to_string()
}

/// Trusted: `serde_json::from_str` into a `Value`, with a failed parse
/// reported as `None`.
#[verifier::external_body]
pub(crate) fn parse_json(text: &str) -> (value: Option<serde_json::Value>)
    ensures
        value == json_parsed(text@),
{
    serde_json::from_str::<serde_json::Value>(text).ok()
}

/// Trusted: a clone of a `serde_json::Value` is the same value.
pub assume_specification[ <serde_json::Value as Clone>::clone ](value: &serde_json::Value) -> (copy:
    serde_json::Value)
    ensures
        copy == *value,
;

/// Trusted: the result of `Number::as_i64` depends on the number alone.
pub assume_specification[ serde_json::Number::as_i64 ](n: &serde_json::Number) -> (i: Option<i64>)
    ensures
        i == number_i64(*n),
;

/// Trusted: `Number::to_string`, the decimal form of the number.
#[verifier::external_body]
pub(crate) fn write_number(n: &serde_json::Number) -> (text: String)
    ensures
        text@ == number_decimal(*n),
{
    n.to_string()
}

/// Trusted: `Number::from` an `i64`; `as_i64` of the result is that integer.
#[verifier::external_body]
pub(crate) fn number_from_i64(i: i64) -> (n: serde_json::Number)
    ensures
        n == number_of_i64(i),
        number_i64(n) == Some(i),
{
    serde_json::Number::from(i)
}

} // verus!
