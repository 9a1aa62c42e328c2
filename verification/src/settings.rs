//! The values the settings store is seeded with and read for at startup.

use crate::catalog::{lemma_listed_is_view, Controls};
use crate::device::{SelectedDevice, FALLBACK_INDEX};
use crate::json::{decode_record, decoded_record, insert_member, integer_value, members_of, new_object};
use vstd::hash_map::StringHashMap;
use vstd::prelude::*;
use vstd::string::*;

verus! {

/// The file that holds the persisted settings.
pub const STORE_FILE: &'static str = "settings.json";

/// The key under which the default profile is stored.
pub const PROFILE_KEY: &'static str = "profile_0";

/// The key under which the selected device index is stored.
pub const INDEX_KEY: &'static str = "index";

/// Why a persisted index record cannot be used.
#[derive(Clone, Copy, Debug, PartialEq, Eq, Structural)]
pub enum RecordError {
    /// The stored value is no object of non-negative 32-bit integers.
    NotARecord,
    /// The record has no member `value`.
    NoValue,
}

/// Names the file of the persisted settings.
pub fn get_store() -> (name: String)
    ensures
        name@ == STORE_FILE@,
{
    String::from_str(STORE_FILE)
}

/// The members of the profile of a catalog: each control name with the
/// default value of that control.
pub open spec fn profile_members(c: Controls) -> Map<Seq<char>, Option<int>> {
    Map::new(|name: Seq<char>| c@.contains_key(name), |name: Seq<char>| Some(c@[name].val as int))
}

/// The members that the first `n` listed controls contribute to a profile.
pub open spec fn profile_prefix(c: Controls, n: int) -> Map<Seq<char>, Option<int>>
    decreases n,
{
    if n <= 0 {
        Map::empty()
    } else {
        profile_prefix(c, n - 1).insert(c.listed()[n - 1].0, Some(c.listed()[n - 1].1.val as int))
    }
}

/// Builds the profile of a catalog as a JSON object.
pub fn profile(controls: &Controls) -> (p: serde_json::Map<String, serde_json::Value>)
    ensures
        members_of(p) == profile_members(*controls),
{
    let entries = controls.entries();
    let mut p = new_object();
    let mut i: usize = 0;
    while i < entries.len()
        invariant
            i <= entries@.len(),
            entries@.len() == controls.listed().len(),
            forall|j: int|
                0 <= j < entries@.len() ==> ((#[trigger] entries@[j]).0@, entries@[j].1)
                    == controls.listed()[j],
            members_of(p) == profile_prefix(*controls, i as int),
        decreases entries.len() - i,
    {
        let key = entries[i].0.clone();
        let value = integer_value(entries[i].1.val);
        insert_member(&mut p, key, value);
        i += 1;
    }
    proof {
        lemma_profile_prefix_complete(*controls);
    }
    p
}

/// The members contributed by all three listed controls are the members
/// of the profile.
pub proof fn lemma_profile_prefix_complete(c: Controls)
    ensures
        profile_prefix(c, 3) == profile_members(c),
{
    lemma_listed_is_view(c);
    reveal_with_fuel(profile_prefix, 4);
    assert(c.listed()[0].0 == "pan"@);
    assert(c.listed()[1].0 == "tilt"@);
    assert(c.listed()[2].0 == "zoom"@);
    assert(profile_prefix(c, 3) =~= profile_members(c));
}

/// The index that a decoded record holds under `value`.
pub open spec fn index_in(record: Map<Seq<char>, u32>) -> Result<u32, RecordError> {
    if record.contains_key("value"@) {
        Ok(record["value"@])
    } else {
        Err(RecordError::NoValue)
    }
}

/// The index that a persisted value stands for, given what decoding it
/// gave.
pub open spec fn index_of(decoded: Option<Map<Seq<char>, u32>>) -> Result<u32, RecordError> {
    match decoded {
        Some(record) => index_in(record),
        None => Err(RecordError::NotARecord),
    }
}

/// Reads the index out of a decoded record.
pub fn recorded_value(record: &StringHashMap<u32>) -> (r: Result<u32, RecordError>)
    ensures
        r == index_in(record@),
{
    match record.get("value") {
        Some(index) => Ok(*index),
        None => Err(RecordError::NoValue),
    }
}

/// Reads the index out of a persisted value of the shape
/// `{ "value": <integer> }`.
pub fn read_index(persisted: serde_json::Value) -> (r: Result<u32, RecordError>)
    ensures
        r == index_of(decoded_record(persisted)),
{
    match decode_record(persisted) {
        Ok(record) => recorded_value(&record),
        Err(_) => Err(RecordError::NotARecord),
    }
}

/// The index that is selected at startup: the persisted one where there is
/// one, the fallback where there is none.
pub open spec fn initial_index(persisted: Option<u32>) -> u32 {
    match persisted {
        Some(index) => index,
        None => FALLBACK_INDEX,
    }
}

/// Sets up the record of the selected device from the index that was
/// persisted, if any.
pub fn initial_device(persisted: Option<u32>) -> (device: SelectedDevice)
    ensures
        device.index() == initial_index(persisted),
{
    match persisted {
        Some(index) => SelectedDevice::new(index),
        None => SelectedDevice::new(FALLBACK_INDEX),
    }
}

/// Sets up the record of the selected device from what the store holds
/// under the index key. Without a stored value the fallback index is
/// selected; a stored value must be a usable record.
pub fn restore_device(stored: Option<serde_json::Value>) -> (r: Result<SelectedDevice, RecordError>)
    ensures
        match stored {
            None => r matches Ok(device) && device.index() == FALLBACK_INDEX,
            Some(v) => match index_of(decoded_record(v)) {
                Ok(index) => r matches Ok(device) && device.index() == index,
                Err(e) => r matches Err(f) && f == e,
            },
        },
{
    match stored {
        None => Ok(initial_device(None)),
        Some(v) => match read_index(v) {
            Ok(index) => Ok(initial_device(Some(index))),
            Err(e) => Err(e),
        },
    }
}

} // verus!
