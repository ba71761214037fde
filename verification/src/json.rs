//! Trusted boundary around `serde_json`: the JSON values that carry
//! front-matter fields through the pipeline, the object built for the
//! template engine, and the serialization of the digest.
//!
//! JSON values are opaque to the verifier: the pipeline only creates
//! them, moves them around, and hands them to the template and
//! serialization services.

use vstd::prelude::*;

verus! {

#[verifier::external_type_specification]
#[verifier::external_body]
pub struct ExJsonValue(serde_json::Value);

#[verifier::external_type_specification]
#[verifier::external_body]
#[verifier::reject_recursive_types(K)]
#[verifier::reject_recursive_types(V)]
pub struct ExJsonMap<K, V>(serde_json::Map<K, V>);

/// The JSON string value holding exactly the characters `s`.
pub uninterp spec fn json_string_value(s: Seq<char>) -> serde_json::Value;

/// The JSON object value whose fields are exactly `entries`.
pub uninterp spec fn json_object_value(entries: Map<Seq<char>, serde_json::Value>) -> serde_json::Value;

/// The JSON array value holding exactly the elements of `items`, in order.
pub uninterp spec fn json_array_value(items: Seq<serde_json::Value>) -> serde_json::Value;

/// The entries held by a `serde_json::Map`, keyed by the characters of
/// the key string.
pub uninterp spec fn jmap_entries(m: serde_json::Map<String, serde_json::Value>) -> Map<Seq<char>, serde_json::Value>;

/// The text that JSON serialization produces for the value `v`.
pub uninterp spec fn json_text_of(v: serde_json::Value) -> Seq<char>;

/// Relies on the `serde_json::Value::String` constructor: it holds the
/// given characters and nothing else.
#[verifier::external_body]
pub(crate) fn json_string(s: String) -> (r: serde_json::Value)
    ensures
        r == json_string_value(s@),
{
    serde_json::Value::String(s)
}

/// The entry map of an empty JSON object.
pub open spec fn jmap_empty() -> Map<Seq<char>, serde_json::Value> {
    Map::empty()
}

/// Relies on `serde_json::Map::new`: the new map is empty.
#[verifier::external_body]
pub(crate) fn json_map_new() -> (r: serde_json::Map<String, serde_json::Value>)
    ensures
        jmap_entries(r) == jmap_empty(),
{
    serde_json::Map::new()
}

/// Relies on `serde_json::Map::insert`: it maps `k` to `v`, replacing
/// any earlier value under `k`, and leaves every other key unchanged.
#[verifier::external_body]
pub(crate) fn json_map_insert(
    m: &mut serde_json::Map<String, serde_json::Value>,
    k: String,
    v: serde_json::Value,
)
    ensures
        jmap_entries(*final(m)) == jmap_entries(*old(m)).insert(k@, v),
{
    m.insert(k, v);
}

/// Relies on the `serde_json::Value::Object` constructor: the object
/// holds exactly the entries of `m`.  With the crate's default
/// features the map is ordered by key, so the entries alone determine
/// the value.
#[verifier::external_body]
pub(crate) fn json_object(m: serde_json::Map<String, serde_json::Value>) -> (r: serde_json::Value)
    ensures
        r == json_object_value(jmap_entries(m)),
{
    serde_json::Value::Object(m)
}

/// Relies on the `serde_json::Value::Array` constructor: the array
/// holds exactly the given elements, in order.
#[verifier::external_body]
pub(crate) fn json_array(items: Vec<serde_json::Value>) -> (r: serde_json::Value)
    ensures
        r == json_array_value(items@),
{
    serde_json::Value::Array(items)
}

/// Relies on `serde_json::Value`'s derived `Clone`: the copy equals
/// the original.
#[verifier::external_body]
pub(crate) fn clone_value(v: &serde_json::Value) -> (r: serde_json::Value)
    ensures
        r == *v,
{
    v.clone()
}

/// Relies on `serde_json::to_string`: serialization of a JSON value
/// is a function of the value alone, and cannot fail for a `Value`
/// (object keys are strings and its numbers hold only finite floats,
/// so no `Serialize` impl in the tree errors and the writer is a
/// `Vec`).
#[verifier::external_body]
pub(crate) fn json_to_string(v: &serde_json::Value) -> (r: String)
    ensures
        r@ == json_text_of(*v),
{
    serde_json::to_string(v).expect("serializing a JSON value cannot fail")
}

} // verus!
