//! Trusted boundary around `serde_json` for decoding vendor payloads.
//!
//! A vendor response is parsed into a `serde_json::Value`, which Verus
//! treats as opaque; the wrappers here expose exactly the accessors the
//! unmarshalling code walks the tree with.  Whether the bytes parse at all
//! — and the message reported when they do not — is a deterministic
//! function of the bytes alone, so those two results carry the names
//! [`json_doc_ok`] and [`json_parse_err`].  Nothing is assumed about the
//! content of a parsed `Value`: the verified normalization functions take
//! whatever was extracted as plain arguments and carry the exact
//! contracts.

use vstd::prelude::*;

verus! {

#[verifier::external_type_specification]
#[verifier::external_body]
pub struct ExJsonValue(serde_json::Value);

/// Whether `serde_json::from_slice` accepts these bytes as one JSON
/// document.  The parser is deterministic, so this is a function of the
/// bytes alone.
pub uninterp spec fn json_doc_ok(bytes: Seq<u8>) -> bool;

/// The message `serde_json::from_slice`'s error displays for these bytes
/// (meaningful only when they do not parse).  Deterministic in the bytes.
pub uninterp spec fn json_parse_err(bytes: Seq<u8>) -> Seq<char>;

/// Relies on `serde_json::from_slice`: decodes one JSON document from
/// bytes; on failure, the error's `Display` text says why the bytes are
/// malformed.  Success and the failure message depend on the bytes alone.
#[verifier::external_body]
pub(crate) fn parse_json(bytes: &[u8]) -> (r: Result<serde_json::Value, String>)
    ensures
        r is Ok <==> json_doc_ok(bytes@),
        r matches Err(m) ==> m@ == json_parse_err(bytes@),
{
    match serde_json::from_slice::<serde_json::Value>(bytes) {
        Ok(v) => Ok(v),
        Err(e) => Err(e.to_string()),
    }
}

/// Relies on `serde_json::Value::get`: looks a key up in a JSON object,
/// `None` when the value is not an object or lacks the key.
#[verifier::external_body]
pub(crate) fn json_get<'a>(v: &'a serde_json::Value, key: &str) -> Option<&'a serde_json::Value> {
    v.get(key)
}

/// Relies on `serde_json::Value::as_str`: the string content when the value
/// is a JSON string, `None` otherwise.
#[verifier::external_body]
pub(crate) fn json_as_str(v: &serde_json::Value) -> Option<String> {
    match v.as_str() {
        Some(s) => Some(s.to_string()),
        None => None,
    }
}

/// Relies on `serde_json::Value::as_u64`: the numeric content when the
/// value is a JSON number representable as `u64`, `None` otherwise.
#[verifier::external_body]
pub(crate) fn json_as_u64(v: &serde_json::Value) -> Option<u64> {
    v.as_u64()
}

/// Relies on `serde_json::Value::as_array`: the elements when the value is
/// a JSON array, `None` otherwise.
#[verifier::external_body]
pub(crate) fn json_as_array<'a>(v: &'a serde_json::Value) -> Option<&'a Vec<serde_json::Value>> {
    v.as_array()
}

/// Relies on `serde_json::Value::is_null`: whether the value is JSON
/// `null`.
#[verifier::external_body]
pub(crate) fn json_is_null(v: &serde_json::Value) -> bool {
    v.is_null()
}

} // verus!
