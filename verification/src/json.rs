//! Trusted access to JSON texts through `serde_json`. Each accessor names
//! its result with an uninterpreted spec function: what a given text holds
//! is a function of that text alone, so the names are well defined, and the
//! record and batch parsers built on top are specified exactly over them.

use vstd::prelude::*;

verus! {

/// What the string field `key` of the top-level JSON object in `text`
/// holds, when `text` parses and carries such a field as a JSON string.
pub uninterp spec fn spec_json_str_field(text: Seq<char>, key: Seq<char>) -> Option<Seq<char>>;

/// Relies on serde_json::from_str, Value::get and Value::as_str: reads the
/// string field `key` of the top-level JSON object in `text`; absent when
/// `text` does not parse, has no such field, or the field is not a string.
#[verifier::external_body]
pub(crate) fn json_get_str(text: &str, key: &str) -> (r: Option<String>)
    ensures
        r.deep_view() == spec_json_str_field(text@, key@),
{
    serde_json::from_str::<serde_json::Value>(text).ok()?.get(key)?.as_str().map(
        |s| s.to_string(),
    )
}

/// What the unsigned-integer field `key` of the top-level JSON object in
/// `text` holds, when `text` parses and carries such a field.
pub uninterp spec fn spec_json_u64_field(text: Seq<char>, key: Seq<char>) -> Option<u64>;

/// Relies on serde_json::from_str, Value::get and Value::as_u64: reads the
/// unsigned-integer field `key` of the top-level JSON object in `text`.
#[verifier::external_body]
pub(crate) fn json_get_u64(text: &str, key: &str) -> (r: Option<u64>)
    ensures
        r == spec_json_u64_field(text@, key@),
{
    serde_json::from_str::<serde_json::Value>(text).ok()?.get(key)?.as_u64()
}

/// How many elements the array field `key` of the top-level JSON object in
/// `text` holds, when `text` parses and carries such a field as an array.
pub uninterp spec fn spec_json_list_len(text: Seq<char>, key: Seq<char>) -> Option<usize>;

/// Relies on serde_json::from_str, Value::get and Value::as_array: the
/// length of the array field `key` of the top-level JSON object in `text`.
#[verifier::external_body]
pub(crate) fn json_get_list_len(text: &str, key: &str) -> (r: Option<usize>)
    ensures
        r == spec_json_list_len(text@, key@),
{
    let v: serde_json::Value = serde_json::from_str(text).ok()?;
    v.get(key)?.as_array().map(|a| a.len())
}

/// What position `i` of the array field `key` of the top-level JSON object
/// in `text` holds, when that element exists and is a JSON string.
pub uninterp spec fn spec_json_list_str(text: Seq<char>, key: Seq<char>, i: usize) -> Option<
    Seq<char>,
>;

/// Relies on serde_json::from_str, Value::get, Value::as_array and
/// Value::as_str: reads element `i` of the array field `key` of the
/// top-level JSON object in `text`, when it is a string.
#[verifier::external_body]
pub(crate) fn json_get_list_str(text: &str, key: &str, i: usize) -> (r: Option<String>)
    ensures
        r.deep_view() == spec_json_list_str(text@, key@, i),
{
    let v: serde_json::Value = serde_json::from_str(text).ok()?;
    v.get(key)?.as_array()?.get(i)?.as_str().map(|s| s.to_string())
}

/// How `text` reads as a top-level JSON array: its element count, or the
/// parser's message when it is not one.
pub uninterp spec fn spec_json_array_len(text: Seq<char>) -> Result<usize, Seq<char>>;

/// Relies on serde_json::from_str: parses `text` as a JSON array and
/// reports its length, or the parser's error message when `text` is not a
/// well-formed JSON array.
#[verifier::external_body]
pub(crate) fn json_parse_array(text: &str) -> (r: Result<usize, String>)
    ensures
        (match r {
            Ok(n) => spec_json_array_len(text@) == Result::<usize, Seq<char>>::Ok(n),
            Err(m) => spec_json_array_len(text@) == Result::<usize, Seq<char>>::Err(m@),
        }),
{
    match serde_json::from_str::<Vec<serde_json::Value>>(text) {
        Ok(v) => Ok(v.len()),
        Err(e) => Err(e.to_string()),
    }
}

/// What element `i` of the top-level JSON array in `text` holds, rendered
/// back to JSON text, when `text` is such an array and the element exists.
pub uninterp spec fn spec_json_element(text: Seq<char>, i: usize) -> Option<Seq<char>>;

/// Relies on serde_json::from_str and the Display rendering of Value, which
/// never fails on a parsed value: hands element `i` of the top-level JSON
/// array in `text` back as JSON text.
#[verifier::external_body]
pub(crate) fn json_get_element(text: &str, i: usize) -> (r: Option<String>)
    ensures
        r.deep_view() == spec_json_element(text@, i),
{
    let v: Vec<serde_json::Value> = serde_json::from_str(text).ok()?;
    v.get(i).map(|e| e.to_string())
}

/// The parser's complaint about `text`: absent when `text` is well-formed
/// JSON, otherwise the error message.
pub uninterp spec fn spec_json_complaint(text: Seq<char>) -> Option<Seq<char>>;

/// Relies on serde_json::from_str: accepts any well-formed JSON value and
/// reports the parser's message otherwise.
#[verifier::external_body]
pub(crate) fn json_check(text: &str) -> (r: Option<String>)
    ensures
        r.deep_view() == spec_json_complaint(text@),
{
    serde_json::from_str::<serde_json::Value>(text).err().map(|e| e.to_string())
}

} // verus!
