//! The JSON values that artifacts carry through unchanged: free-form
//! parameters, metadata and measured values.
//!
//! They are `serde_json` values. The library never looks inside one; it only
//! moves, copies and collects them, and the contracts below say what those
//! operations do.
use vstd::prelude::*;

verus! {

#[verifier::external_type_specification]
#[verifier::external_body]
pub struct ExValue(serde_json::Value);

#[verifier::external_type_specification]
#[verifier::external_body]
#[verifier::reject_recursive_types(K)]
#[verifier::reject_recursive_types(V)]
pub struct ExMap<K, V>(serde_json::Map<K, V>);

/// The entries of a JSON object map, keyed by the characters of each key.
pub uninterp spec fn entries(m: serde_json::Map<String, serde_json::Value>) -> Map<Seq<char>, serde_json::Value>;

/// The entries of an empty map.
pub open spec fn no_entries() -> Map<Seq<char>, serde_json::Value> {
    Map::empty()
}

/// Relies on `serde_json::Map::new`: the new map has no entries.
pub assume_specification[ serde_json::Map::new ]() -> (r: serde_json::Map<String, serde_json::Value>)
    ensures
        entries(r) == no_entries(),
;

/// Relies on `serde_json::Map::insert`: the key now maps to the value, every
/// other entry stays, and the value that the key held before is handed back.
pub assume_specification[ serde_json::Map::<String, serde_json::Value>::insert ](
    m: &mut serde_json::Map<String, serde_json::Value>,
    k: String,
    v: serde_json::Value,
) -> (r: Option<serde_json::Value>)
    ensures
        entries(*final(m)) == entries(*old(m)).insert(k@, v),
        r == (if entries(*old(m)).contains_key(k@) {
            Some(entries(*old(m))[k@])
        } else {
            None::<serde_json::Value>
        }),
;

/// Relies on the `Clone` impl of `serde_json::Map<String, Value>`: a copy
/// equal to the map it copies.
pub assume_specification[ <serde_json::Map<String, serde_json::Value> as Clone>::clone ](
    m: &serde_json::Map<String, serde_json::Value>,
) -> (r: serde_json::Map<String, serde_json::Value>)
    ensures
        r == *m,
;

/// Relies on the derived `Clone` of `serde_json::Value`: a copy equal to the
/// value it copies.
pub assume_specification[ <serde_json::Value as Clone>::clone ](v: &serde_json::Value) -> (r: serde_json::Value)
    ensures
        r == *v,
;

/// The entries of an optional map, an unset map counting as empty.
pub open spec fn entries_or_empty(m: Option<serde_json::Map<String, serde_json::Value>>) -> Map<
    Seq<char>,
    serde_json::Value,
> {
    match m {
        Some(inner) => entries(inner),
        None => no_entries(),
    }
}

/// The result of adding `key` with `value` to the optional map `m`.
pub open spec fn with_entry(
    m: Option<serde_json::Map<String, serde_json::Value>>,
    key: Seq<char>,
    value: serde_json::Value,
) -> Option<Map<Seq<char>, serde_json::Value>> {
    Some(entries_or_empty(m).insert(key, value))
}

/// Inserts `key` with `value` into `m`, making the map first when there is none.
pub fn insert_entry(
    m: Option<serde_json::Map<String, serde_json::Value>>,
    key: &str,
    value: serde_json::Value,
) -> (r: serde_json::Map<String, serde_json::Value>)
    ensures
        Some(entries(r)) == with_entry(m, key@, value),
{
    let mut map = match m {
        Some(old_map) => old_map,
        None => serde_json::Map::new(),
    };
    map.insert(key.to_string(), value);
    map
}

} // verus!
