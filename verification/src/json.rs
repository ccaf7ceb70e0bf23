//! Trusted access to serde_json for reading the free-form fields of service
//! response bodies.
//!
//! A parsed value is opaque here: these wrappers only carry values out of it
//! as plain strings and numbers, and every decision taken on what they
//! return is made by verified functions of the client modules. The fields
//! the contracts speak of go through each client module's own trusted
//! extractor instead, whose result is a named pure function of the body.

use vstd::prelude::*;

verus! {

#[verifier::external_type_specification]
#[verifier::external_body]
pub struct ExValue(serde_json::Value);

/// Relies on serde_json::from_str: the parsed document when the body is
/// valid JSON, and nothing otherwise.
#[verifier::external_body]
pub(crate) fn json_parse(s: &str) -> Option<serde_json::Value> {
    serde_json::from_str::<serde_json::Value>(s).ok()
}

/// Relies on serde_json::Value::get: the value under the key when this is an
/// object that has it.
#[verifier::external_body]
pub(crate) fn json_get(v: &serde_json::Value, key: &str) -> Option<serde_json::Value> {
    v.get(key).cloned()
}

/// Relies on serde_json::Value::as_str: the content when the value is a
/// string.
#[verifier::external_body]
pub(crate) fn json_as_str(v: &serde_json::Value) -> Option<String> {
    v.as_str().map(|s| s.to_string())
}

/// Relies on serde_json::Value::as_u64: the number when the value is an
/// unsigned integer.
#[verifier::external_body]
pub(crate) fn json_as_u64(v: &serde_json::Value) -> Option<u64> {
    v.as_u64()
}

} // verus!
