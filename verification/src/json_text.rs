//! JSON values as texts.
//!
//! `serde_json` and `toml` read and write the texts. What they give for a text or a
//! value is named, so that callers can state what they do with it.

use serde_json::Value;
use vstd::prelude::*;

use crate::json::{json_view, json_wf, Json, JsonNumber, JsonView, NumberView};
use crate::text_map::TextMap;

verus! {

/// A JSON value of `serde_json`.
#[verifier::external_type_specification]
#[verifier::external_body]
pub struct ExValue(serde_json::Value);

/// What `serde_json::from_str` gives for a text: the value, or the text of the
/// error.
pub uninterp spec fn json_of(text: Seq<char>) -> Result<JsonView, Seq<char>>;

/// What `serde_json::Value` is displayed as, which is compact JSON.
pub uninterp spec fn json_text_of(value: JsonView) -> Seq<char>;

/// What parsing a text as a `toml::Table` gives, as JSON: the value, or the text of
/// the error.
pub uninterp spec fn toml_of(text: Seq<char>) -> Result<JsonView, Seq<char>>;

/// The text of the error that `serde_json::from_value` gives for a value that is no
/// `u32`.
pub uninterp spec fn u32_error_of(value: JsonView) -> Seq<char>;

/// The value that a `serde_json::Value` stands for, variant by variant. Its objects
/// are walked in key order, so the keys of every object ascend.
#[verifier::external_body]
fn from_value(value: &Value) -> (r: Json) {
    match value {
        Value::Null => Json::Null,
        Value::Bool(b) => Json::Bool(*b),
        Value::Number(n) => Json::Number(match (n.as_u64(), n.as_i64()) {
            (Some(u), _) => JsonNumber::Unsigned(u),
            (_, Some(i)) => JsonNumber::Negative(i),
            _ => JsonNumber::Float(n.to_string()),
        }),
        Value::String(s) => Json::Text(s.clone()),
        Value::Array(items) => Json::Array(items.iter().map(from_value).collect()),
        Value::Object(map) => Json::Object(TextMap {
            entries: map.iter().map(|(k, v)| (k.clone(), from_value(v))).collect(),
        }),
    }
}

/// The `serde_json::Value` that a value stands for, variant by variant. Objects are
/// filled from their last entry to their first, so that the first of two entries under
/// one key stays. A number that is no integer is read back from what is written, and
/// left out as `null` where that is no number.
#[verifier::external_body]
fn to_value(value: &Json) -> (r: Value) {
    match value {
        Json::Null => Value::Null,
        Json::Bool(b) => Value::Bool(*b),
        Json::Number(JsonNumber::Unsigned(u)) => (*u).into(),
        Json::Number(JsonNumber::Negative(i)) => (*i).into(),
        Json::Number(JsonNumber::Float(s)) => s.parse().map_or(Value::Null, Value::Number),
        Json::Text(s) => Value::String(s.clone()),
        Json::Array(items) => items.iter().map(to_value).collect(),
        Json::Object(map) => Value::Object(
            map.entries.iter().rev().map(|(k, v)| (k.clone(), to_value(v))).collect(),
        ),
    }
}

/// Parses a text with `serde_json::from_str`. The result is named by the text: the
/// value, whose objects keep their keys in ascending order, or the text of the
/// error.
#[verifier::external_body]
pub(crate) fn parse_json(text: &str) -> (r: Result<Json, String>)
    ensures
        match r {
            Ok(value) => json_of(text@) == Ok::<JsonView, Seq<char>>(json_view(value)) && json_wf(
                value,
            ),
            Err(e) => json_of(text@) == Err::<JsonView, Seq<char>>(e@),
        },
{
    match serde_json::from_str::<Value>(text) {
        Ok(value) => Ok(from_value(&value)),
        Err(e) => Err(e.to_string()),
    }
}

/// Writes a value with the `Display` of `serde_json::Value`. The text is named by
/// the value.
#[verifier::external_body]
pub(crate) fn json_text(value: &Json) -> (r: String)
    ensures
        r@ == json_text_of(json_view(*value)),
{
    to_value(value).to_string()
}

/// Parses a text as a `toml::Table` and turns it into JSON with
/// `serde_json::to_value`. The result is named by the text: the value, whose objects
/// keep their keys in ascending order, or the text of the error.
#[verifier::external_body]
pub(crate) fn parse_toml(text: &str) -> (r: Result<Json, String>)
    ensures
        match r {
            Ok(value) => toml_of(text@) == Ok::<JsonView, Seq<char>>(json_view(value)) && json_wf(
                value,
            ),
            Err(e) => toml_of(text@) == Err::<JsonView, Seq<char>>(e@),
        },
{
    let table = text.parse::<toml::Table>().map_err(|e| e.to_string())?;
    let value = serde_json::to_value(table).map_err(|e| e.to_string())?;
    Ok(from_value(&value))
}

/// The number that a value stands for.
pub open spec fn u32_of(value: JsonView) -> Option<u32> {
    match value {
        JsonView::Number(NumberView::Unsigned(n)) => if n <= u32::MAX {
            Some(n as u32)
        } else {
            None
        },
        _ => None,
    }
}

/// The text of the error that `serde_json::from_value` gives for a value that is read as
/// a `u32`, or nothing where it gives none. The text is named by the value.
#[verifier::external_body]
fn u32_error(value: &Json) -> (r: String)
    ensures
        r@ == u32_error_of(json_view(*value)),
{
    match serde_json::from_value::<u32>(to_value(value)) {
        Ok(_) => String::new(),
        Err(e) => e.to_string(),
    }
}

/// Reads a value as a `u32`. A non-negative integer in range is taken as it stands and
/// nothing else is accepted.
pub fn json_u32(value: &Json) -> (r: Result<u32, String>)
    ensures
        match r {
            Ok(n) => u32_of(json_view(*value)) == Some(n),
            Err(e) => u32_of(json_view(*value)) is None && e@ == u32_error_of(json_view(*value)),
        },
{
    match value {
        Json::Number(JsonNumber::Unsigned(n)) => if *n <= 0xffff_ffff {
            Ok(*n as u32)
        } else {
            Err(u32_error(value))
        },
        _ => Err(u32_error(value)),
    }
}

/// A number from 0 to the greatest that fits stands for itself, and nothing else is read as one.
pub proof fn law_small_numbers_are_read(value: JsonView, n: u64)
    ensures
        n <= 0xffff_ffff ==> u32_of(JsonView::Number(NumberView::Unsigned(n))) is Some && u32_of(
            JsonView::Number(NumberView::Unsigned(n)),
        )->0 == n,
        n > 0xffff_ffff ==> u32_of(JsonView::Number(NumberView::Unsigned(n))) is None,
        u32_of(value) is Some ==> value is Number && value->Number_0 is Unsigned,
{
}

} // verus!
