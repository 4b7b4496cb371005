//! The parts of `serde_json` that this library builds on. Their code is not
//! verified here; each item below says what is taken for granted about it.

use vstd::prelude::*;
use std::collections::HashMap;
use serde_json::Value;

verus! {

/// `serde_json::Value`, carried as an opaque value.
#[verifier::external_type_specification]
#[verifier::external_body]
pub struct ExJsonValue(Value);

/// `serde_json::Error`, carried as an opaque value.
#[verifier::external_type_specification]
#[verifier::external_body]
pub struct ExJsonError(serde_json::Error);

/// The JSON string literal for a text, quotes and escapes included.
pub uninterp spec fn json_quoted(text: Seq<char>) -> Seq<char>;

/// Calls `Value::default`, which is JSON's `null`. Nothing is stated of the
/// result.
#[verifier::external_body]
pub(crate) fn json_null() -> Value {
    Value::default()
}

/// Calls `serde_json::to_string` on a text. Taken for granted: where the
/// call succeeds, its result is the JSON string literal for that text, the
/// same for the same text.
#[verifier::external_body]
pub(crate) fn json_quote(text: &str) -> (r: Result<String, serde_json::Error>)
    ensures
        r matches Ok(quoted) ==> quoted@ == json_quoted(text@),
{
    serde_json::to_string(text)
}

/// Calls `serde_json::to_string` on a JSON value. Nothing is stated of the
/// result.
#[verifier::external_body]
pub(crate) fn json_value_text(value: &Value) -> Result<String, serde_json::Error> {
    serde_json::to_string(value)
}

/// Calls `serde_json::to_string` on a map from names to JSON values. The
/// members come out in the order in which the map is walked, so nothing is
/// stated of the result.
#[verifier::external_body]
pub(crate) fn json_map_text(map: &HashMap<String, Value>) -> Result<String, serde_json::Error> {
    serde_json::to_string(map)
}

} // verus!
