//! The JSON values that travel over the bridge, and the calls into
//! `serde_json` that read, build and print them.
//!
//! Nothing in this file is proved. Each item below states what the library
//! relies on; the doc comment of each says which function of `serde_json`
//! stands behind it.

use vstd::prelude::*;

verus! {

/// `serde_json::Value`, a JSON tree. Verified code carries such a value
/// around and asks the functions below about it; it never looks inside.
#[verifier::external_type_specification]
#[verifier::external_body]
pub struct ExValue(serde_json::Value);

/// `serde_json::Error`, what parsing and printing fail with.
#[verifier::external_type_specification]
#[verifier::external_body]
pub struct ExJsonError(serde_json::Error);

/// The compact text that `serde_json::to_string` prints for a value.
pub uninterp spec fn json_text(value: serde_json::Value) -> Seq<char>;

/// Whether `serde_json::to_string` prints a value, rather than reporting an
/// error.
pub uninterp spec fn json_prints(value: serde_json::Value) -> bool;

/// The value that `serde_json::from_str` reads from a text, `None` where it
/// reports an error.
pub uninterp spec fn json_parse(text: Seq<char>) -> Option<serde_json::Value>;

/// The member that `serde_json::Value::get` finds under a string key.
pub uninterp spec fn json_member(value: serde_json::Value, key: Seq<char>) -> Option<
    serde_json::Value,
>;

/// The number that `serde_json::Value::as_u64` reads from a value.
pub uninterp spec fn json_u64(value: serde_json::Value) -> Option<u64>;

/// The value that `serde_json::Value::from` makes of a string slice.
pub uninterp spec fn json_string(text: Seq<char>) -> serde_json::Value;

/// Calls `serde_json::from_str` for a `Value`. The call reads the whole text
/// as one JSON value or reports an error; what it reads depends on the text
/// alone.
#[verifier::external_body]
pub(crate) fn parse(text: &str) -> (parsed: Result<serde_json::Value, serde_json::Error>)
    ensures
        match parsed {
            Ok(value) => json_parse(text@) == Some(value),
            Err(_) => json_parse(text@) is None,
        },
{
    serde_json::from_str::<serde_json::Value>(text)
}

/// Calls `serde_json::Value::get` with a string key and clones what it
/// finds. `get` returns the member of an object under that key, and `None`
/// for a missing key and for a value that is no object.
#[verifier::external_body]
pub(crate) fn member(value: &serde_json::Value, key: &str) -> (found: Option<serde_json::Value>)
    ensures
        found == json_member(*value, key@),
{
    value.get(key).cloned()
}

/// Calls `serde_json::Value::as_u64`, which returns the number that a value
/// holds where it is an integer that fits a `u64`, else `None`.
#[verifier::external_body]
pub(crate) fn as_u64(value: &serde_json::Value) -> (number: Option<u64>)
    ensures
        number == json_u64(*value),
{
    value.as_u64()
}

/// Makes `serde_json::Value::Null`, which prints as `null`.
#[verifier::external_body]
pub(crate) fn null() -> (value: serde_json::Value)
    ensures
        json_text(value) == "null"@,
{
    serde_json::Value::Null
}

/// Calls `serde_json::Value::from` on a string slice, which makes the JSON
/// string with that content.
#[verifier::external_body]
pub(crate) fn string(text: &str) -> (value: serde_json::Value)
    ensures
        value == json_string(text@),
{
    serde_json::Value::from(text)
}

/// Calls `serde_json::to_string` on a value. Whether it prints, and what,
/// depends on the value alone. The compact printer writes no white space
/// between tokens and escapes every control character inside a string, so
/// the text holds no line feed.
#[verifier::external_body]
pub(crate) fn to_text(value: &serde_json::Value) -> (printed: Result<String, serde_json::Error>)
    ensures
        printed is Ok <==> json_prints(*value),
        printed matches Ok(text) ==> text@ == json_text(*value) && !text@.contains('\n'),
{
    serde_json::to_string(value)
}

/// Renders a `serde_json::Error` through its `Display` impl.
#[verifier::external_body]
pub(crate) fn error_text(error: &serde_json::Error) -> (text: String) {
    error.to_string()
}

} // verus!
