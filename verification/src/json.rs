//! Trusted boundary to the JSON parser.
//!
//! The payloads of the wire protocol are JSON text. Parsing general JSON is
//! left to the `serde_json` crate; this module gives that crate's document
//! type and the handful of calls the codec makes a specification. The model
//! is deliberately small: a parsed document is seen as a map from the keys
//! of the top-level object to the atoms the codec can read (a non-object
//! document has no readable keys), and every other shape of value is
//! `Other`. Everything the codec decides on top of this model is verified
//! in `codec`.

use vstd::prelude::*;

verus! {

#[verifier::external_type_specification]
#[verifier::external_body]
pub struct ExValue(serde_json::Value);

/// What the codec can read out of one JSON value: a string, an unsigned
/// integer that fits `u64`, or a boolean. Any other value (null, a
/// fractional or out-of-range number, a nested array or object) is `Other`.
pub enum JsonAtom {
    Text { chars: Seq<char> },
    Uint { n: u64 },
    Boolean { b: bool },
    Other,
}

/// The document that the given text parses to, as the map from the keys of
/// its top-level object to their atoms; `None` when the text is not valid
/// JSON. A valid document that is not an object has an empty map.
pub uninterp spec fn json_doc(s: Seq<char>) -> Option<Map<Seq<char>, JsonAtom>>;

/// The readable fields of an already-parsed JSON value: the keys of its
/// top-level object, each with its atom; empty when the value is not an
/// object.
pub uninterp spec fn json_entries(v: serde_json::Value) -> Map<Seq<char>, JsonAtom>;

/// The atom of an already-parsed JSON value.
pub uninterp spec fn json_atom(v: serde_json::Value) -> JsonAtom;

/// Relies on `serde_json::from_str::<Value>`: text parses to a document
/// exactly when it is valid JSON, and parsing is a function of the text.
#[verifier::external_body]
pub(crate) fn json_from_str(s: &str) -> (r: Option<serde_json::Value>)
    ensures
        r is Some <==> json_doc(s@) is Some,
        r matches Some(v) ==> json_doc(s@) == Some(json_entries(v)),
{
    serde_json::from_str::<serde_json::Value>(s).ok()
}

/// Relies on `serde_json::Value::get` with a string index: it returns the
/// value at that key of a JSON object, and `None` for a missing key or a
/// non-object.
#[verifier::external_body]
pub(crate) fn json_get<'a>(v: &'a serde_json::Value, key: &str) -> (r: Option<
    &'a serde_json::Value,
>)
    ensures
        r is Some <==> json_entries(*v).contains_key(key@),
        r matches Some(f) ==> json_atom(*f) == json_entries(*v)[key@],
{
    v.get(key)
}

/// Relies on `serde_json::Value::as_str`: `Some` exactly for JSON strings,
/// with their characters.
#[verifier::external_body]
pub(crate) fn json_as_string(v: &serde_json::Value) -> (r: Option<String>)
    ensures
        r is Some <==> json_atom(*v) is Text,
        r matches Some(s) ==> json_atom(*v) == (JsonAtom::Text { chars: s@ }),
{
    v.as_str().map(str::to_string)
}

/// Relies on `serde_json::Value::as_u64`: `Some` exactly for JSON numbers
/// that are unsigned integers in the range of `u64`.
#[verifier::external_body]
pub(crate) fn json_as_u64(v: &serde_json::Value) -> (r: Option<u64>)
    ensures
        r is Some <==> json_atom(*v) is Uint,
        r matches Some(n) ==> json_atom(*v) == (JsonAtom::Uint { n }),
{
    v.as_u64()
}

/// Relies on `serde_json::Value::as_bool`: `Some` exactly for JSON booleans.
#[verifier::external_body]
pub(crate) fn json_as_bool(v: &serde_json::Value) -> (r: Option<bool>)
    ensures
        r is Some <==> json_atom(*v) is Boolean,
        r matches Some(b) ==> json_atom(*v) == (JsonAtom::Boolean { b }),
{
    v.as_bool()
}

} // verus!
