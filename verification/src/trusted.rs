//! The trusted boundary to the outside crates.
//!
//! Everything the engine takes from `serde_json` and from `std`'s case
//! folding passes through the items here. Their contracts are believed, not
//! proved: each doc comment names the outside function relied on.

use vstd::prelude::*;
use crate::json::JsonValue;

verus! {

/// What `str::to_lowercase` returns on a given character sequence: the result
/// depends on the characters alone.
pub uninterp spec fn lower_of(s: Seq<char>) -> Seq<char>;

/// Relies on `str::to_lowercase`: the Unicode lowercase form of `s`, a
/// function of the characters alone.
#[verifier::external_body]
pub(crate) fn lowercase(s: &str) -> (r: String)
    ensures
        r@ == lower_of(s@),
{
    s.to_lowercase()
}

#[verifier::external_type_specification]
#[verifier::external_body]
pub struct ExValue(serde_json::Value);

/// What a `serde_json::Value` holds, in the engine's own JSON model.
pub uninterp spec fn json_view(v: serde_json::Value) -> JsonValue;

/// What parsing a byte buffer as JSON yields: the engine's model of the
/// document, or `None` where the bytes are not a valid JSON document.
pub uninterp spec fn parsed_json(bytes: Seq<u8>) -> Option<JsonValue>;

/// Relies on `serde_json::from_slice::<serde_json::Value>`: parses `bytes` as
/// one JSON document, `Ok` exactly on valid JSON, and a pure function of the
/// bytes (the crate's `Map` keeps its entries by key order).
#[verifier::external_body]
pub(crate) fn parse_raw(bytes: &[u8]) -> (r: Option<serde_json::Value>)
    ensures
        match r {
            Some(v) => parsed_json(bytes@) == Some(json_view(v)),
            None => parsed_json(bytes@) is None,
        },
{
    serde_json::from_slice::<serde_json::Value>(bytes).ok()
}

/// Relies on `serde_json::Value`'s variants: rebuilds the value in the
/// engine's own model, one arm per variant; strings keep their text, the
/// other scalars collapse to `Scalar`.
#[verifier::external_body]
pub(crate) fn abstract_value(v: &serde_json::Value) -> (r: JsonValue)
    ensures
        r == json_view(*v),
{
    match v {
        serde_json::Value::Null => JsonValue::Scalar,
        serde_json::Value::Bool(_) => JsonValue::Scalar,
        serde_json::Value::Number(_) => JsonValue::Scalar,
        serde_json::Value::String(s) => JsonValue::Text(s.clone()),
        serde_json::Value::Array(elems) => JsonValue::Array(
            elems.iter().map(abstract_value).collect(),
        ),
        serde_json::Value::Object(fields) => JsonValue::Object(
            fields.iter().map(|(k, x)| (k.clone(), abstract_value(x))).collect(),
        ),
    }
}

} // verus!
