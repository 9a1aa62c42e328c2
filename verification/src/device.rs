//! The record of which camera the control commands act on.

use vstd::prelude::*;
use vstd::string::*;

verus! {

/// The device index in use until another one is selected or restored.
pub const FALLBACK_INDEX: u32 = 1;

/// The camera index that control commands currently target. Any index may
/// be selected; whether a device answers to it shows only when it is opened.
#[derive(Clone, Copy, Debug, PartialEq, Eq, Structural)]
pub struct SelectedDevice {
    index: u32,
}

/// The index that selecting `device` records: its low 32 bits. Every
/// `device` from 0 to `u32::MAX` is recorded as it is.
pub open spec fn recorded_index(device: i64) -> u32 {
    device as u32
}

impl SelectedDevice {
    /// The selected index.
    pub closed spec fn index(&self) -> u32 {
        self.index
    }

    /// A record with `index` selected.
    pub fn new(index: u32) -> (s: Self)
        ensures
            s.index() == index,
    {
        SelectedDevice { index }
    }

    /// Reads the selected index.
    pub fn get(&self) -> (i: u32)
        ensures
            i == self.index(),
    {
        self.index
    }

    /// Selects `index`, whether or not a device answers to it.
    pub fn set(&mut self, index: u32)
        ensures
            final(self).index() == index,
    {
        self.index = index;
    }
}

/// Selects the camera `device` and acknowledges with `OK`. The device is
/// neither opened nor checked for existence.
pub fn set_camera(state: &mut SelectedDevice, device: i64) -> (reply: String)
    ensures
        final(state).index() == recorded_index(device),
        reply@ == "OK"@,
{
    state.set(#[verifier::truncate] (device as u32));
    String::from_str("OK")
}

/// Selecting an index that fits 32 bits and reading the record back gives
/// that index.
pub proof fn lemma_select_then_read(device: i64)
    requires
        0 <= device <= u32::MAX,
    ensures
        recorded_index(device) == device,
{
}

/// The recorded index is `device` reduced modulo 2^32.
pub proof fn lemma_recorded_index_wraps(device: i64)
    ensures
        recorded_index(device) as int == (device as int) % 0x1_0000_0000,
{
    assert(device as u32 == (device as u64) & 0xffff_ffffu64) by (bit_vector);
    assert((device as u64) & 0xffff_ffffu64 == (device as u64) % 0x1_0000_0000u64) by (bit_vector);
    if device >= 0 {
        assert(device as u64 == device) by (bit_vector)
            requires device >= 0;
    } else {
        assert(device as u64 == device + 0x1_0000_0000_0000_0000) by (bit_vector)
            requires device < 0;
    }
}

} // verus!
