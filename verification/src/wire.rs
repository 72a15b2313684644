//! The app-server's wire format: one JSON document per line, read and
//! written through serde_json.
use vstd::prelude::*;
use crate::json::{JsonValue, JsonModel, JsonNumber, FloatText};
use serde_json::Value;

verus! {

#[verifier::external_type_specification]
#[verifier::external_body]
pub struct ExJsonDocument(Value);

/// What `serde_json::from_str::<serde_json::Value>` makes of a line: the
/// document, as the library's model, or the text of the parser's error.
pub uninterp spec fn parsed_line(line: Seq<char>) -> Result<JsonModel, Seq<char>>;

/// The compact text that serde_json's `Display` writes for a document.
pub uninterp spec fn json_text(value: JsonModel) -> Seq<char>;

/// Moves a serde_json document into the library's type, variant by variant:
/// a number becomes a non-negative integer, a negative integer or the text of
/// a float, as `Number::as_u64`, `Number::as_i64` and its `Display` tell them
/// apart. This is the result conversion of `parse_json_line`; nothing else
/// calls it.
#[verifier::external_body]
fn library_value(value: &Value) -> JsonValue {
    match value {
        Value::Null => JsonValue::Null,
        Value::Bool(b) => JsonValue::Bool(*b),
        Value::Number(n) => JsonValue::Number(match (n.as_u64(), n.as_i64()) {
            (Some(u), _) => JsonNumber::PosInt(u),
            (None, Some(i)) => JsonNumber::NegInt(i),
            _ => JsonNumber::Float(FloatText { text: n.to_string() }),
        }),
        Value::String(s) => JsonValue::String(s.clone()),
        Value::Array(items) => JsonValue::Array(items.iter().map(library_value).collect()),
        Value::Object(map) => JsonValue::Object(
            map.iter().map(|(k, v)| (k.clone(), library_value(v))).collect(),
        ),
    }
}

/// Moves a library document into serde_json's type, variant by variant: an
/// object's entries are collected into a `serde_json::Map`, and a float's
/// text is read back as a `serde_json::Number`. A `FloatText` is only made
/// by `library_value` from serde_json's own text of a number, so that read
/// always succeeds (its `Null` arm is never taken). This is the argument
/// conversion of `write_json`; nothing else calls it.
#[verifier::external_body]
fn serde_value(value: &JsonValue) -> Value {
    match value {
        JsonValue::Null => Value::Null,
        JsonValue::Bool(b) => Value::Bool(*b),
        JsonValue::Number(JsonNumber::PosInt(u)) => Value::from(*u),
        JsonValue::Number(JsonNumber::NegInt(i)) => Value::from(*i),
        JsonValue::Number(JsonNumber::Float(f)) => serde_json::from_str::<serde_json::Number>(&f.text)
            .map_or(Value::Null, Value::Number),
        JsonValue::String(s) => Value::String(s.clone()),
        JsonValue::Array(items) => Value::Array(items.iter().map(serde_value).collect()),
        JsonValue::Object(entries) => Value::Object(
            entries.iter().map(|(k, v)| (k.clone(), serde_value(v))).collect(),
        ),
    }
}

/// Calls `serde_json::from_str::<serde_json::Value>` on a line: the result is
/// the named `parsed_line` of the line (the document, or the error's text).
/// serde_json keeps an object's members in a `Map` keyed by their names, so
/// every object of the document has distinct keys.
#[verifier::external_body]
fn parse_json_line(line: &str) -> (r: Result<JsonValue, String>)
    ensures
        match r {
            Ok(v) => parsed_line(line@) == Ok::<JsonModel, Seq<char>>(v@) && v@.well_formed(),
            Err(e) => parsed_line(line@) == Err::<JsonModel, Seq<char>>(e@),
        },
{
    match serde_json::from_str::<Value>(line) {
        Ok(v) => Ok(library_value(&v)),
        Err(e) => Err(e.to_string()),
    }
}

/// Calls serde_json's `Display` for a document: the result is the named
/// `json_text` of its model.
#[verifier::external_body]
fn write_json(value: &JsonValue) -> (r: String)
    ensures
        r@ == json_text(value@),
{
    serde_value(value).to_string()
}

/// The serde_json text of a document: what goes over the wire for a
/// request (before the line end), and what an error member reads as.
pub fn json_string(value: &JsonValue) -> (r: String)
    ensures
        r@ == json_text(value@),
{
    write_json(value)
}

/// One read from the app-server's standard output.
pub enum LineRead {
    /// The stream ended.
    End,
    /// A line that is a JSON document.
    Parsed(JsonValue),
    /// A line that is not JSON, with the parser's complaint.
    Malformed(String),
    /// The read failed, with the error's text.
    Failed(String),
}

/// What a read of the app-server's output was: `None` at the end of the
/// stream, the error's text where the read failed, else the line, which is a
/// document (with distinct keys in each object) or malformed as serde_json
/// parses it.
pub fn read_line_event(read: Option<Result<String, String>>) -> (r: LineRead)
    ensures
        match read {
            None => r is End,
            Some(Err(d)) => r == LineRead::Failed(d),
            Some(Ok(line)) => match parsed_line(line@) {
                Ok(m) => r matches LineRead::Parsed(v) && v@ == m && m.well_formed(),
                Err(t) => r matches LineRead::Malformed(d) && d@ == t,
            },
        },
{
    match read {
        None => LineRead::End,
        Some(Err(d)) => LineRead::Failed(d),
        Some(Ok(line)) => match parse_json_line(line.as_str()) {
            Ok(v) => LineRead::Parsed(v),
            Err(e) => LineRead::Malformed(e),
        },
    }
}

} // verus!
