//! Model of the per-window extra storage owned by the host window record.
//!
//! At class registration the host is asked to reserve `WND_EXTRA_BYTES`
//! bytes of extra storage per window: four 32-bit slots, addressed by the
//! byte offsets 0, 4, 8 and 12, exactly one encoded reference value wide.

use vstd::prelude::*;
use crate::codec::assemble;

verus! {

/// Bytes of extra per-window storage reserved at class registration:
/// four 32-bit slots, one encoded reference value.
pub const WND_EXTRA_BYTES: u32 = 16;

/// The byte offsets at which the host reads and writes a 32-bit slot.
pub open spec fn valid_offset(offset: u32) -> bool {
    offset == 0 || offset == 4 || offset == 8 || offset == 12
}

/// The four 32-bit extra-storage slots of one window, in offset order.
pub struct ExtraStorage {
    pub slot0: u32,
    pub slot4: u32,
    pub slot8: u32,
    pub slot12: u32,
}

impl ExtraStorage {
    /// The slot at byte offset `offset`.
    pub open spec fn slot(self, offset: u32) -> u32 {
        if offset == 0 {
            self.slot0
        } else if offset == 4 {
            self.slot4
        } else if offset == 8 {
            self.slot8
        } else {
            self.slot12
        }
    }

    /// Fresh storage, zeroed as the host hands it out.
    pub fn new() -> (s: ExtraStorage)
        ensures
            s.slot0 == 0,
            s.slot4 == 0,
            s.slot8 == 0,
            s.slot12 == 0,
    {
        ExtraStorage { slot0: 0, slot4: 0, slot8: 0, slot12: 0 }
    }

    /// Writes the 32-bit slot at byte offset `offset`, leaving the other
    /// slots unchanged.
    pub fn set_long(&mut self, offset: u32, value: u32)
        requires
            valid_offset(offset),
        ensures
            final(self).slot(offset) == value,
            forall|o: u32| valid_offset(o) && o != offset
                ==> (#[trigger] final(self).slot(o)) == old(self).slot(o),
    {
        if offset == 0 {
            self.slot0 = value;
        } else if offset == 4 {
            self.slot4 = value;
        } else if offset == 8 {
            self.slot8 = value;
        } else {
            self.slot12 = value;
        }
    }

    /// Reads the 32-bit slot at byte offset `offset`.
    pub fn get_long(&self, offset: u32) -> (value: u32)
        requires
            valid_offset(offset),
        ensures
            value == self.slot(offset),
    {
        if offset == 0 {
            self.slot0
        } else if offset == 4 {
            self.slot4
        } else if offset == 8 {
            self.slot8
        } else {
            self.slot12
        }
    }
}

/// The reference value held by the four slots, most significant word at
/// offset 0.
pub open spec fn stored_ref(s: ExtraStorage) -> u128 {
    assemble(s.slot0, s.slot4, s.slot8, s.slot12)
}

} // verus!
