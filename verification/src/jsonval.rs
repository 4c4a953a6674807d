//! The crate's only window onto `serde_json`: the `Value` type is declared
//! opaque, and each operation the logic needs is wrapped in one trusted
//! function. Values are carried through and inspected here, never modelled;
//! whatever structure the logic needs it extracts into its own plain types.
use vstd::prelude::*;

verus! {

/// `serde_json::Value`, opaque to the verifier: an untyped JSON document
/// carried through the logic (tool schemas, tool arguments, tool results).
#[verifier::external_type_specification]
#[verifier::external_body]
pub struct ExValue(serde_json::Value);

/// Whether a text parses as a JSON document. Parsing depends on the text
/// alone, so this is a function of it; nothing else is assumed of it.
pub uninterp spec fn json_parses(s: Seq<char>) -> bool;

/// Relies on `serde_json::from_str`: parses a JSON document, or reports the
/// parser's error as text. It succeeds exactly when the text parses.
#[verifier::external_body]
pub fn json_parse(s: &str) -> (r: Result<serde_json::Value, String>)
    ensures
        r is Ok <==> json_parses(s@),
{
    serde_json::from_str(s).map_err(|e| e.to_string())
}

/// Relies on `serde_json::to_string`: serializes a JSON document, or reports
/// the serializer's error as text.
#[verifier::external_body]
pub fn json_to_string(v: &serde_json::Value) -> Result<String, String> {
    serde_json::to_string(v).map_err(|e| e.to_string())
}

/// Relies on `serde_json::Value::get`: the member named `key` of an object.
#[verifier::external_body]
pub fn json_get<'a>(v: &'a serde_json::Value, key: &str) -> Option<&'a serde_json::Value> {
    v.get(key)
}

/// Relies on `serde_json::Value::as_str`: the text of a JSON string.
#[verifier::external_body]
pub fn json_as_str<'a>(v: &'a serde_json::Value) -> Option<&'a str> {
    v.as_str()
}

/// Relies on `serde_json::Value::as_array`: the elements of a JSON array.
#[verifier::external_body]
pub fn json_as_array<'a>(v: &'a serde_json::Value) -> Option<&'a Vec<serde_json::Value>> {
    v.as_array()
}

/// Relies on `serde_json::Value::as_u64`: a JSON number as an unsigned integer.
#[verifier::external_body]
pub fn json_as_u64(v: &serde_json::Value) -> Option<u64> {
    v.as_u64()
}

/// Relies on `serde_json::Value::as_bool`: a JSON boolean.
#[verifier::external_body]
pub fn json_as_bool(v: &serde_json::Value) -> Option<bool> {
    v.as_bool()
}

/// Relies on `serde_json::Value::as_object` and `Map::iter`: the members of
/// a JSON object as owned key–value pairs, in the map's own (sorted) order.
#[verifier::external_body]
pub fn json_object_entries(v: &serde_json::Value) -> Option<Vec<(String, serde_json::Value)>> {
    v.as_object().map(|m| m.iter().map(|(k, x)| (k.clone(), x.clone())).collect())
}

/// Relies on `serde_json::Value::clone`: an owned copy, equal to the
/// document it was taken from.
#[verifier::external_body]
pub fn json_clone(v: &serde_json::Value) -> (r: serde_json::Value)
    ensures
        r == *v,
{
    v.clone()
}

/// Relies on `serde_json::Value::Null`: the JSON null document.
#[verifier::external_body]
pub fn json_null() -> serde_json::Value {
    serde_json::Value::Null
}

} // verus!
