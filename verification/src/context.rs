//! Per-instance execution context: the single host-exposed scalar slot
//! that the guest reaches through its imported `get` and `put` calls.

use vstd::prelude::*;

verus! {

/// The host-visible state one instance exposes to its guest: a single
/// mutable 32-bit slot, reset to zero at creation.
pub struct CrimeCtx {
    slot: u32,
}

impl CrimeCtx {
    /// The slot's current value, for contracts.
    pub closed spec fn slot(&self) -> u32 {
        self.slot
    }

    /// A fresh context: the slot starts at zero.
    pub fn new() -> (r: CrimeCtx)
        ensures
            r.slot() == 0,
    {
        CrimeCtx { slot: 0 }
    }

    /// `get`, as imported by the guest: returns the slot unchanged.
    pub fn get(&self) -> (r: u32)
        ensures
            r == self.slot(),
    {
        self.slot
    }

    /// `put`, as imported by the guest: overwrites the slot with `v`
    /// and returns its previous value.
    pub fn put(&mut self, v: u32) -> (r: u32)
        ensures
            final(self).slot() == v,
            r == old(self).slot(),
    {
        let r = self.slot;
        self.slot = v;
        r
    }
}

} // verus!
