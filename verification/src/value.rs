//! The value codec: JSON values on the caller's side, SQLite's five storage
//! classes on the engine's side, and the mapping in both directions.

use crate::json::{
    build_value, json_built, json_coherent, json_parsed, json_shape, json_text, number_decimal,
    number_from_i64, number_i64, number_of_i64, parse_json, read_node, write_json,
    write_number, JsonNode, JsonShape,
};
use vstd::prelude::*;

verus! {

/// `rusqlite::types::Value`, carried through without looking inside.
#[verifier::external_type_specification]
#[verifier::external_body]
pub struct ExEngineValue(rusqlite::types::Value);

/// A floating value of the engine, carried as the engine holds it.
///
/// Only this module makes one, and always from the `Real` variant of
/// `rusqlite::types::Value`.
#[derive(Debug, PartialEq)]
pub struct SqlReal {
    raw: rusqlite::types::Value,
}

impl SqlReal {
    /// The engine value that carries this number.
    pub closed spec fn carried(self) -> rusqlite::types::Value {
        self.raw
    }

    /// The engine value that carries this number.
    pub fn as_engine(&self) -> (raw: &rusqlite::types::Value)
        ensures
            *raw == self.carried(),
    {
        &self.raw
    }
}

/// A value of one of SQLite's storage classes.
#[derive(Debug, PartialEq)]
pub enum SqlValue {
    Null,
    Integer(i64),
    Real(SqlReal),
    Text(String),
    Blob(Vec<u8>),
}

/// The mathematical counterpart of [`SqlValue`].
pub enum SqlModel {
    Null,
    Integer(i64),
    Real(SqlReal),
    Text(Seq<char>),
    Blob(Seq<u8>),
}

impl View for SqlValue {
    type V = SqlModel;

    open spec fn view(&self) -> SqlModel {
        match self {
            SqlValue::Null => SqlModel::Null,
            SqlValue::Integer(i) => SqlModel::Integer(*i),
            SqlValue::Real(x) => SqlModel::Real(*x),
            SqlValue::Text(s) => SqlModel::Text(s@),
            SqlValue::Blob(b) => SqlModel::Blob(b@),
        }
    }
}

/// The views of a list of values, in order.
pub open spec fn sql_views(values: Seq<SqlValue>) -> Seq<SqlModel> {
    values.map_values(|v: SqlValue| v@)
}

/// What `serde_json::Number::as_f64` returns for `n`, as an engine value.
pub uninterp spec fn number_real(n: serde_json::Number) -> Option<SqlReal>;

/// What `serde_json::Number::from_f64` returns for the floating value `x`:
/// the JSON number, or `None` where `x` is not finite.
pub uninterp spec fn real_number(x: SqlReal) -> Option<serde_json::Number>;

/// The storage class and content of an engine value.
pub uninterp spec fn engine_model(value: rusqlite::types::Value) -> SqlModel;

/// Trusted: `Number::as_f64`, its result put into the `Real` variant of
/// `rusqlite::types::Value`.
#[verifier::external_body]
fn number_to_real(n: &serde_json::Number) -> (x: Option<SqlReal>)
    ensures
        x == number_real(*n),
{
    n.as_f64().map(|x| SqlReal { raw: rusqlite::types::Value::Real(x) })
}

/// Trusted: `Number::from_f64` on the floating value that `x` carries.
#[verifier::external_body]
fn real_to_number(x: &SqlReal) -> (n: Option<serde_json::Number>)
    ensures
        n == real_number(*x),
{
    match x.raw {
        rusqlite::types::Value::Real(f) => serde_json::Number::from_f64(f),
        _ => None,
    }
}

/// Trusted: the variant of `rusqlite::types::Value` for each storage class,
/// holding a copy of the content.
#[verifier::external_body]
pub(crate) fn to_engine(value: &SqlValue) -> (raw: rusqlite::types::Value)
    ensures
        engine_model(raw) == value@,
{
    match value {
        SqlValue::Null => rusqlite::types::Value::Null,
        SqlValue::Integer(i) => rusqlite::types::Value::Integer(*i),
        SqlValue::Real(x) => x.raw.clone(),
        SqlValue::Text(s) => rusqlite::types::Value::Text(s.clone()),
        SqlValue::Blob(b) => rusqlite::types::Value::Blob(b.clone()),
    }
}

/// Trusted: matches on the variants of `rusqlite::types::Value` and moves
/// the content out.
#[verifier::external_body]
pub(crate) fn from_engine(raw: rusqlite::types::Value) -> (value: SqlValue)
    ensures
        value@ == engine_model(raw),
{
    match raw {
        rusqlite::types::Value::Null => SqlValue::Null,
        rusqlite::types::Value::Integer(i) => SqlValue::Integer(i),
        rusqlite::types::Value::Real(_) => SqlValue::Real(SqlReal { raw }),
        rusqlite::types::Value::Text(s) => SqlValue::Text(s),
        rusqlite::types::Value::Blob(b) => SqlValue::Blob(b),
    }
}

/// The engine value for a JSON number: an integer where `i64` holds it
/// exactly, else a floating value, else its decimal text.
pub open spec fn encode_number(n: serde_json::Number) -> SqlModel {
    match number_i64(n) {
        Some(i) => SqlModel::Integer(i),
        None => match number_real(n) {
            Some(x) => SqlModel::Real(x),
            None => SqlModel::Text(number_decimal(n)),
        },
    }
}

/// The engine value that a JSON value is stored as.
pub open spec fn encode_json(value: serde_json::Value) -> SqlModel {
    match json_shape(value) {
        JsonShape::Null => SqlModel::Null,
        JsonShape::Bool(b) => SqlModel::Integer(
            if b {
                1i64
            } else {
                0i64
            },
        ),
        JsonShape::Number(n) => encode_number(n),
        JsonShape::String(s) => SqlModel::Text(s),
        JsonShape::Array(_) => SqlModel::Text(json_text(value)),
        JsonShape::Object(_) => SqlModel::Text(json_text(value)),
    }
}

/// The engine values of a list of JSON values, in order.
pub open spec fn encode_all(values: Seq<serde_json::Value>) -> Seq<SqlModel> {
    values.map_values(|v: serde_json::Value| encode_json(v))
}

/// The JSON value that a cell is read back as. `None` is a cell that the
/// engine could not hand out as a value (text that is not UTF-8).
///
/// Text is tried first and wins: where it parses as JSON the parsed value
/// is returned, so a stored string such as `"42"` comes back as the number.
pub open spec fn decode_cell(cell: Option<SqlModel>) -> serde_json::Value {
    match cell {
        Some(SqlModel::Text(s)) => match json_parsed(s) {
            Some(parsed) => parsed,
            None => json_built(JsonShape::String(s)),
        },
        Some(SqlModel::Integer(i)) => json_built(JsonShape::Number(number_of_i64(i))),
        Some(SqlModel::Real(x)) => match real_number(x) {
            Some(n) => json_built(JsonShape::Number(n)),
            None => json_built(JsonShape::Null),
        },
        _ => json_built(JsonShape::Null),
    }
}

/// The view of an optional cell.
pub open spec fn cell_view(cell: Option<SqlValue>) -> Option<SqlModel> {
    match cell {
        Some(v) => Some(v@),
        None => None,
    }
}

/// Maps a JSON value to the engine value it is stored as.
pub fn json_value_to_sqlite(value: &serde_json::Value) -> (stored: SqlValue)
    ensures
        stored@ == encode_json(*value),
{
    match read_node(value) {
        JsonNode::Null => SqlValue::Null,
        JsonNode::Bool(b) => SqlValue::Integer(
            if b {
                1
            } else {
                0
            },
        ),
        JsonNode::Number(n) => {
            match n.as_i64() {
                Some(i) => SqlValue::Integer(i),
                None => match number_to_real(&n) {
                    Some(x) => SqlValue::Real(x),
                    None => SqlValue::Text(write_number(&n)),
                },
            }
        },
        JsonNode::String(s) => SqlValue::Text(s),
        JsonNode::Array(_) => SqlValue::Text(write_json(value)),
        JsonNode::Object(_) => SqlValue::Text(write_json(value)),
    }
}

/// Maps each JSON value of a list to the engine value it is stored as.
pub fn json_values_to_sqlite(values: &Vec<serde_json::Value>) -> (stored: Vec<SqlValue>)
    ensures
        sql_views(stored@) == encode_all(values@),
{
    let mut stored: Vec<SqlValue> = Vec::new();
    let mut i: usize = 0;
    while i < values.len()
        invariant
            i <= values.len(),
            stored.len() == i,
            forall|k: int| 0 <= k < i ==> (#[trigger] stored@[k])@ == encode_json(values@[k]),
        decreases values.len() - i,
    {
        stored.push(json_value_to_sqlite(&values[i]));
        i = i + 1;
    }
    stored
}

/// Maps a cell read from a row to the JSON value handed to the caller.
pub fn sqlite_value_to_json(cell: Option<SqlValue>) -> (value: serde_json::Value)
    ensures
        value == decode_cell(cell_view(cell)),
{
    match cell {
        Some(SqlValue::Text(text)) => {
            match parse_json(text.as_str()) {
                Some(parsed) => parsed,
                None => build_value(JsonNode::String(text)),
            }
        },
        Some(SqlValue::Integer(i)) => build_value(JsonNode::Number(number_from_i64(i))),
        Some(SqlValue::Real(x)) => {
            match real_to_number(&x) {
                Some(n) => build_value(JsonNode::Number(n)),
                None => build_value(JsonNode::Null),
            }
        },
        _ => build_value(JsonNode::Null),
    }
}

/// A JSON string whose content is not itself JSON text is read back as the
/// same string.
pub proof fn lemma_plain_string_round_trip(value: serde_json::Value, content: Seq<char>)
    requires
        json_coherent(value),
        json_shape(value) == JsonShape::String(content),
        json_parsed(content) is None,
    ensures
        decode_cell(Some(encode_json(value))) == value,
{
}

/// A JSON string whose content is itself JSON text is read back as the
/// value that the content stands for, not as the string.
pub proof fn lemma_json_string_reparsed(
    value: serde_json::Value,
    content: Seq<char>,
    parsed: serde_json::Value,
)
    requires
        json_shape(value) == JsonShape::String(content),
        json_parsed(content) == Some(parsed),
    ensures
        decode_cell(Some(encode_json(value))) == parsed,
{
}

/// JSON `null` is read back as `null`.
pub proof fn lemma_null_round_trip(value: serde_json::Value)
    requires
        json_coherent(value),
        json_shape(value) is Null,
    ensures
        decode_cell(Some(encode_json(value))) == value,
{
}

/// A JSON integer that `i64` holds is stored as that integer and read back
/// as the JSON number of that integer.
pub proof fn lemma_integer_read_back(value: serde_json::Value, n: serde_json::Number, i: i64)
    requires
        json_shape(value) == JsonShape::Number(n),
        number_i64(n) == Some(i),
    ensures
        encode_json(value) == SqlModel::Integer(i),
        decode_cell(Some(encode_json(value))) == json_built(JsonShape::Number(number_of_i64(i))),
{
}

/// A JSON boolean does not come back as a boolean: it is stored as the
/// integer 1 or 0 and read back as that number.
pub proof fn lemma_boolean_read_back_as_number(value: serde_json::Value, b: bool)
    requires
        json_shape(value) == JsonShape::Bool(b),
    ensures
        decode_cell(Some(encode_json(value))) == json_built(
            JsonShape::Number(
                number_of_i64(
                    if b {
                        1
                    } else {
                        0
                    },
                ),
            ),
        ),
{
}

} // verus!
