//! JSON documents, read through `serde_json`.
//!
//! Parsing is `serde_json`'s work and is not verified here. A parsed document
//! stays a `serde_json::Value`; what it holds is spoken of through the
//! mathematical value [`Json`], and each accessor below says over that value
//! what the method of `serde_json` behind it returns.

use crate::double::Double;
use vstd::prelude::*;

verus! {

/// `serde_json::Value`: a parsed document. Nothing of its inside is seen here.
#[verifier::external_type_specification]
#[verifier::external_body]
pub struct ExValue(serde_json::Value);

/// `serde_json::Error`: why a body did not parse.
#[verifier::external_type_specification]
#[verifier::external_body]
pub struct ExError(serde_json::Error);

/// A JSON number, as the two ways there are of reading it.
pub struct Number {
    /// The number as an `i64`: present when it was written as an integer and
    /// fits.
    pub integer: Option<i64>,
    /// The number as a double.
    pub real: Double,
}

/// What a JSON document holds.
pub enum Json {
    Null,
    Bool(bool),
    Number(Number),
    Text(Seq<char>),
    Array(Seq<Json>),
    Object(Map<Seq<char>, Json>),
}

/// What a parsed document holds.
pub uninterp spec fn json_content(value: serde_json::Value) -> Json;

/// The text that `serde_json` describes an error with.
pub uninterp spec fn error_text(error: serde_json::Error) -> Seq<char>;

/// What parsing a body gives: the content of the document, or the text of the
/// parser's error.
pub uninterp spec fn parsed(bytes: Seq<u8>) -> Result<Json, Seq<char>>;

/// `serde_json::from_slice`, asked for a `serde_json::Value`.
///
/// Trusted: the outcome depends on the bytes alone, so that it has a name,
/// `parsed`. Nothing is claimed of which bytes parse, nor to what.
#[verifier::external_body]
pub(crate) fn read_value(bytes: &[u8]) -> (r: Result<serde_json::Value, serde_json::Error>)
    ensures
        match r {
            Ok(value) => parsed(bytes@) == Ok::<Json, Seq<char>>(json_content(value)),
            Err(error) => parsed(bytes@) == Err::<Json, Seq<char>>(error_text(error)),
        },
{
    serde_json::from_slice::<serde_json::Value>(bytes)
}

/// `to_string` on a `serde_json::Error`, which writes the error as its
/// `Display` impl does.
///
/// Trusted: the text depends on the error alone. Nothing is claimed of what it
/// says.
#[verifier::external_body]
pub(crate) fn describe(error: &serde_json::Error) -> (r: String)
    ensures
        r@ == error_text(*error),
{
    error.to_string()
}

/// `serde_json::Value::is_object`.
///
/// Trusted: true of an object and of nothing else.
#[verifier::external_body]
pub(crate) fn is_object(value: &serde_json::Value) -> (r: bool)
    ensures
        r == (json_content(*value) is Object),
{
    value.is_object()
}

/// `serde_json::Value::get` with a string for the index.
///
/// Trusted: on an object that has the key, the value under it; on an object
/// without the key, and on everything that is no object, nothing.
#[verifier::external_body]
pub(crate) fn member<'a>(value: &'a serde_json::Value, key: &str) -> (r: Option<
    &'a serde_json::Value,
>)
    ensures
        match json_content(*value) {
            Json::Object(members) if members.contains_key(key@) => r matches Some(found)
                && json_content(*found) == members[key@],
            _ => r is None,
        },
{
    value.get(key)
}

/// `serde_json::Value::as_str`.
///
/// Trusted: the characters of a string, and nothing for any other value.
#[verifier::external_body]
pub(crate) fn as_text<'a>(value: &'a serde_json::Value) -> (r: Option<&'a str>)
    ensures
        match json_content(*value) {
            Json::Text(text) => r matches Some(s) && s@ == text,
            _ => r is None,
        },
{
    value.as_str()
}

/// `serde_json::Value::as_i64`.
///
/// Trusted: the integer reading of a number, and nothing for any other value.
#[verifier::external_body]
pub(crate) fn as_integer(value: &serde_json::Value) -> (r: Option<i64>)
    ensures
        r == match json_content(*value) {
            Json::Number(number) => number.integer,
            _ => None,
        },
{
    value.as_i64()
}

/// `serde_json::Value::as_f64`, the double handed on as its bit pattern.
///
/// Trusted: every number reads as a double, and no other value does.
#[verifier::external_body]
pub(crate) fn as_double(value: &serde_json::Value) -> (r: Option<Double>)
    ensures
        r == match json_content(*value) {
            Json::Number(number) => Some(number.real),
            _ => None,
        },
{
    match value.as_f64() {
        Some(x) => Some(Double { bits: x.to_bits() }),
        None => None,
    }
}

} // verus!
