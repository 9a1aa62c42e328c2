//! What the library assumes of the JSON values it exchanges with the
//! settings store. Nothing in this file is proved: each contract restates
//! what `serde_json` does.

use std::collections::HashMap;
use vstd::hash_map::StringHashMap;
use vstd::prelude::*;

verus! {

/// A JSON value. Its inside is not visible to proofs.
#[verifier::external_type_specification]
#[verifier::external_body]
pub struct ExValue(serde_json::Value);

/// The members of a JSON object. Its inside is not visible to proofs.
#[verifier::external_type_specification]
#[verifier::external_body]
#[verifier::reject_recursive_types(K)]
#[verifier::reject_recursive_types(V)]
pub struct ExObject<K, V>(serde_json::Map<K, V>);

/// The error of a failed conversion.
#[verifier::external_type_specification]
#[verifier::external_body]
pub struct ExError(serde_json::Error);

/// The integer that a JSON value holds, or `None` where the value is
/// anything but an integer number.
pub uninterp spec fn integer_of(v: serde_json::Value) -> Option<int>;

/// What a JSON object holds: its keys, each with the integer that the
/// member under it holds (`None` for a member that is no integer).
pub uninterp spec fn members_of(m: serde_json::Map<String, serde_json::Value>) -> Map<
    Seq<char>,
    Option<int>,
>;

/// The record that `serde_json::from_value` reads out of a JSON value
/// when asked for a map from strings to `u32`, or `None` where it reports
/// an error.
pub uninterp spec fn decoded_record(v: serde_json::Value) -> Option<Map<Seq<char>, u32>>;

/// Calls `serde_json::Value::from` on an `i64`, which gives the JSON
/// number holding that integer.
#[verifier::external_body]
pub(crate) fn integer_value(n: i64) -> (v: serde_json::Value)
    ensures
        integer_of(v) == Some(n as int),
{
    serde_json::Value::from(n)
}

/// Calls `serde_json::Map::new`, which gives an object without members.
#[verifier::external_body]
pub(crate) fn new_object() -> (m: serde_json::Map<String, serde_json::Value>)
    ensures
        (members_of(m) == Map::<Seq<char>, Option<int>>::empty()),
{
    serde_json::Map::new()
}

/// Calls `serde_json::Map::insert`, which stores `v` under `key`, in place
/// of what was stored under it, and leaves the other members alone.
#[verifier::external_body]
pub(crate) fn insert_member(
    m: &mut serde_json::Map<String, serde_json::Value>,
    key: String,
    v: serde_json::Value,
)
    ensures
        members_of(*final(m)) == members_of(*old(m)).insert(key@, integer_of(v)),
{
    m.insert(key, v);
}

/// Calls `serde_json::from_value` for a `HashMap<String, u32>` and moves
/// the entries it decoded into a map that proofs can read. The contract
/// claims only that the outcome depends on nothing but `v`.
#[verifier::external_body]
pub(crate) fn decode_record(v: serde_json::Value) -> (r: Result<
    StringHashMap<u32>,
    serde_json::Error,
>)
    ensures
        match r {
            Ok(record) => decoded_record(v) == Some(record@),
            Err(_) => decoded_record(v) is None,
        },
{
    let decoded: HashMap<String, u32> = serde_json::from_value(v)?;
    let mut record = StringHashMap::new();
    for (key, value) in decoded {
        record.insert(key, value);
    }
    Ok(record)
}

} // verus!
