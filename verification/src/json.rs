//! The trusted boundary to the JSON library.
//!
//! Inbound payloads arrive as arbitrary JSON trees; this crate keeps
//! them in `serde_json::Value`, opaque to the verifier, and reads
//! plain fields out of them through the wrappers below. Everything
//! downstream of these wrappers is verified against what it does with
//! the extracted plain values, whatever the tree held.

use vstd::prelude::*;

verus! {

#[verifier::external_type_specification]
#[verifier::external_body]
pub struct ExValue(serde_json::Value);

/// The decoder's verdict on a text: whether it is well-formed JSON.
/// serde_json's answer depends on the characters alone (its recursion
/// limit is a fixed constant of the library).
pub uninterp spec fn json_parses(s: Seq<char>) -> bool;

/// Relies on serde_json::from_str::<Value>: parses a JSON text into a
/// value tree exactly when the text is well-formed JSON, or reports
/// the decoder's error text.
#[verifier::external_body]
pub(crate) fn json_parse(s: &str) -> (r: Result<serde_json::Value, String>)
    ensures
        r is Ok <==> json_parses(s@),
{
    match serde_json::from_str::<serde_json::Value>(s) {
        Ok(v) => Ok(v),
        Err(e) => Err(e.to_string()),
    }
}

/// Relies on serde_json::Value::get: the value under a key of a JSON
/// object, or `None` when the value is not an object or lacks the key.
#[verifier::external_body]
pub(crate) fn json_get<'a>(v: &'a serde_json::Value, key: &str) -> (r: Option<
    &'a serde_json::Value,
>) {
    v.get(key)
}

/// Relies on serde_json::Value::as_u64: the value as an unsigned
/// 64-bit integer, or `None` when it is not one.
#[verifier::external_body]
pub(crate) fn json_as_u64(v: &serde_json::Value) -> (r: Option<u64>) {
    v.as_u64()
}

/// Relies on serde_json::Value::as_str: the value as a string, or
/// `None` when it is not one; the result is handed out owned.
#[verifier::external_body]
pub(crate) fn json_as_string(v: &serde_json::Value) -> (r: Option<String>) {
    match v.as_str() {
        Some(s) => Some(s.to_owned()),
        None => None,
    }
}

/// Relies on serde_json::Value's Display: the value printed back as
/// compact JSON text (a number prints as its decimal form).
#[verifier::external_body]
pub(crate) fn json_text(v: &serde_json::Value) -> (r: String) {
    v.to_string()
}

/// Relies on serde_json::Value's derived Clone: the copy equals the
/// original.
#[verifier::external_body]
pub(crate) fn json_clone(v: &serde_json::Value) -> (r: serde_json::Value)
    ensures
        r == *v,
{
    v.clone()
}

/// Relies on String::from_utf8_lossy: decodes bytes as UTF-8 text,
/// substituting the replacement character for invalid sequences; in
/// particular, the UTF-8 encoding of a text decodes back to that text.
#[verifier::external_body]
pub(crate) fn utf8_lossy(b: &[u8]) -> (r: String)
    ensures
        forall|t: Seq<char>| b@ == vstd::utf8::encode_utf8(t) ==> r@ == t,
{
    String::from_utf8_lossy(b).into_owned()
}

} // verus!
