//! JSON values: the mathematical model, and what `serde_json` is trusted to do.
//!
//! A `serde_json::Value` is carried through as it is; contracts speak of the
//! [`Json`] that it holds. What `serde_json` computes takes pages to write
//! down, so each of its three algorithms that the library calls has a name
//! here and no definition: the name stands for what the function returns,
//! which depends on its arguments alone.

use vstd::prelude::*;

verus! {

/// A JSON value.
pub enum Json {
    Null,
    Bool(bool),
    /// A number, as the decimal text that `serde_json` writes for it.
    Number(Seq<char>),
    /// A string: its characters, with no quotes around them and no escapes.
    String(Seq<char>),
    Array(Seq<Json>),
    /// An object: its members, each a name and a value, in the order in which
    /// `serde_json` keeps them.
    Object(Seq<(Seq<char>, Json)>),
}

/// `serde_json::Value`, opaque to the verifier.
#[verifier::external_type_specification]
#[verifier::external_body]
pub struct ExValue(serde_json::Value);

/// `serde_json::Error`, opaque to the verifier.
#[verifier::external_type_specification]
#[verifier::external_body]
pub struct ExJsonError(serde_json::Error);

/// The JSON value that a `serde_json::Value` holds.
pub uninterp spec fn json_of(value: serde_json::Value) -> Json;

/// The document that `serde_json::from_slice` reads from `bytes`, or `None`
/// where it rejects them.
pub uninterp spec fn parsed_json(bytes: Seq<u8>) -> Option<Json>;

/// The value that `serde_json::Value::pointer` finds in `document` for the
/// JSON pointer `pointer`, or `None` where it finds nothing.
pub uninterp spec fn json_at(document: Json, pointer: Seq<char>) -> Option<Json>;

/// The compact JSON text that `serde_json::to_string` writes for `value`, or
/// `None` where it fails.
pub uninterp spec fn json_text(value: Json) -> Option<Seq<char>>;

/// Parses one JSON document with `serde_json::from_slice`.
///
/// Trusted: the outcome is what [`parsed_json`] names for these bytes.
#[verifier::external_body]
pub(crate) fn parse_json(bytes: &[u8]) -> (r: Result<serde_json::Value, serde_json::Error>)
    ensures
        match r {
            Ok(document) => parsed_json(bytes@) == Some(json_of(document)),
            Err(_) => parsed_json(bytes@) is None,
        },
{
    serde_json::from_slice(bytes)
}

/// Resolves a JSON pointer with `serde_json::Value::pointer`.
///
/// Trusted: the outcome is what [`json_at`] names for this document and
/// pointer.
#[verifier::external_body]
pub(crate) fn value_at<'a>(document: &'a serde_json::Value, pointer: &str) -> (r: Option<
    &'a serde_json::Value,
>)
    ensures
        match r {
            Some(value) => json_at(json_of(*document), pointer@) == Some(json_of(*value)),
            None => json_at(json_of(*document), pointer@) is None,
        },
{
    document.pointer(pointer)
}

/// Reads a JSON string with `serde_json::Value::as_str`.
///
/// Trusted: the contents of the string where the value is one, and `None` for
/// every other value.
#[verifier::external_body]
pub(crate) fn value_string<'a>(value: &'a serde_json::Value) -> (r: Option<&'a str>)
    ensures
        match r {
            Some(text) => json_of(*value) == Json::String(text@),
            None => !(json_of(*value) is String),
        },
{
    value.as_str()
}

/// Writes a value as compact JSON text with `serde_json::to_string`.
///
/// Trusted: the outcome is what [`json_text`] names for this value.
#[verifier::external_body]
pub(crate) fn value_text(value: &serde_json::Value) -> (r: Result<String, serde_json::Error>)
    ensures
        match r {
            Ok(text) => json_text(json_of(*value)) == Some(text@),
            Err(_) => json_text(json_of(*value)) is None,
        },
{
    serde_json::to_string(value)
}

/// Copies a value with the `Clone` impl of `serde_json::Value`.
///
/// Trusted: the copy holds the same JSON value.
#[verifier::external_body]
pub(crate) fn value_copy(value: &serde_json::Value) -> (r: serde_json::Value)
    ensures
        json_of(r) == json_of(*value),
{
    value.clone()
}

} // verus!
