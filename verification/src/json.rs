//! Trusted bridge to `serde_json`.
//!
//! Message payloads (`msg_data`) are opaque JSON values. This module declares
//! the `serde_json` types the envelope carries and gives each operation the
//! envelope needs a small trusted wrapper. The contents of a JSON object map
//! are modelled by the uninterpreted function [`json_map_model`]; what a JSON
//! value holds is modelled by [`json_obj_of`], [`json_str_of`] and
//! [`json_u64_of`]. Everything built on top of these wrappers is verified.

use vstd::prelude::*;

verus! {

/// A JSON object: a map from field names to JSON values.
pub type JsonObject = serde_json::Map<String, serde_json::Value>;

/// The mathematical content of a [`JsonObject`].
pub type JsonObjectModel = Map<Seq<char>, serde_json::Value>;

/// `serde_json::Value`, carried through the envelope as an opaque payload.
#[verifier::external_type_specification]
#[verifier::external_body]
pub struct ExValue(serde_json::Value);

/// `serde_json::Map`, the object representation behind `Value::Object`.
#[verifier::external_type_specification]
#[verifier::external_body]
#[verifier::reject_recursive_types(K)]
#[verifier::reject_recursive_types(V)]
pub struct ExMap<K, V>(serde_json::Map<K, V>);

/// `serde_json::Error`, returned when a payload cannot be represented.
#[verifier::external_type_specification]
#[verifier::external_body]
pub struct ExError(serde_json::Error);

/// The entries of a JSON object map, keyed by the key's characters.
pub uninterp spec fn json_map_model(m: JsonObject) -> JsonObjectModel;

/// The object entries of a JSON value: `Some` exactly for `Value::Object`.
pub uninterp spec fn json_obj_of(v: serde_json::Value) -> Option<JsonObjectModel>;

/// The characters of a JSON value: `Some` exactly for `Value::String`.
pub uninterp spec fn json_str_of(v: serde_json::Value) -> Option<Seq<char>>;

/// The unsigned integer a JSON value holds, as `Value::as_u64` reports it.
pub uninterp spec fn json_u64_of(v: serde_json::Value) -> Option<u64>;

/// Relies on `serde_json::Map::new`: a map with no entries.
#[verifier::external_body]
pub fn json_map_new() -> (m: JsonObject)
    ensures
        json_map_model(m) == JsonObjectModel::empty(),
{
    serde_json::Map::new()
}

/// Relies on `serde_json::Map::clone`: the copy holds the same entries.
#[verifier::external_body]
pub fn json_map_clone(m: &JsonObject) -> (r: JsonObject)
    ensures
        json_map_model(r) == json_map_model(*m),
{
    m.clone()
}

/// Relies on `serde_json::Map::insert`: adds the entry, replacing any entry
/// with the same key.
#[verifier::external_body]
pub fn json_map_insert(m: &mut JsonObject, key: &str, value: serde_json::Value)
    ensures
        json_map_model(*final(m)) == json_map_model(*old(m)).insert(key@, value),
{
    m.insert(key.to_owned(), value);
}

/// Relies on `serde_json::Map::remove`: takes the entry with the given key
/// out of the map and returns its value.
#[verifier::external_body]
pub fn json_map_remove(m: &mut JsonObject, key: &str) -> (r: Option<serde_json::Value>)
    ensures
        json_map_model(*final(m)) == json_map_model(*old(m)).remove(key@),
        r == (if json_map_model(*old(m)).dom().contains(key@) {
            Some(json_map_model(*old(m))[key@])
        } else {
            None::<serde_json::Value>
        }),
{
    m.remove(key)
}

/// Relies on `serde_json::Value::clone`: the copy is the same value.
#[verifier::external_body]
pub fn json_value_clone(v: &serde_json::Value) -> (r: serde_json::Value)
    ensures
        r == *v,
{
    v.clone()
}

/// Relies on `serde_json::Value::Object`: wraps a map as an object value.
#[verifier::external_body]
pub fn json_value_object(m: JsonObject) -> (v: serde_json::Value)
    ensures
        json_obj_of(v) == Some(json_map_model(m)),
        json_str_of(v) is None,
        json_u64_of(v) is None,
{
    serde_json::Value::Object(m)
}

/// Relies on `serde_json::Value::String`: wraps characters as a string value.
#[verifier::external_body]
pub fn json_value_string(s: &str) -> (v: serde_json::Value)
    ensures
        json_str_of(v) == Some(s@),
        json_obj_of(v) is None,
        json_u64_of(v) is None,
{
    serde_json::Value::String(s.to_owned())
}

/// Relies on `serde_json::Value::Number` and `serde_json::Number::from`:
/// a number value read back by `as_u64` as the same integer.
#[verifier::external_body]
pub fn json_value_u64(n: u64) -> (v: serde_json::Value)
    ensures
        json_u64_of(v) == Some(n),
        json_str_of(v) is None,
        json_obj_of(v) is None,
{
    serde_json::Value::Number(serde_json::Number::from(n))
}

/// Relies on `serde_json::Value::Object` matching: an object value gives up
/// its map; every other value is handed back unchanged.
#[verifier::external_body]
pub fn json_value_into_object(v: serde_json::Value) -> (r: Result<JsonObject, serde_json::Value>)
    ensures
        match r {
            Ok(m) => json_obj_of(v) == Some(json_map_model(m)),
            Err(w) => w == v && json_obj_of(v) is None,
        },
{
    match v {
        serde_json::Value::Object(m) => Ok(m),
        other => Err(other),
    }
}

/// Relies on `serde_json::Value::as_str`: the characters of a string value.
#[verifier::external_body]
pub fn json_value_as_string(v: &serde_json::Value) -> (r: Option<String>)
    ensures
        match r {
            Some(s) => json_str_of(*v) == Some(s@),
            None => json_str_of(*v) is None,
        },
{
    match v.as_str() {
        Some(s) => Some(s.to_owned()),
        None => None,
    }
}

/// Relies on `serde_json::Value::as_u64`: the integer of a number value.
#[verifier::external_body]
pub fn json_value_as_u64(v: &serde_json::Value) -> (r: Option<u64>)
    ensures
        r == json_u64_of(*v),
{
    v.as_u64()
}

} // verus!
