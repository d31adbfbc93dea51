//! The buffer capability: one live allocation inside the guest's memory.
//!
//! A `GuestBuffer` is not a pointer but an owned capability. It can only
//! be created from a nonzero offset that the guest's allocator handed
//! back, and the operations that retire an allocation take it by value,
//! so a freed buffer cannot be named again. Offset zero is the guest's
//! universal "allocation failed" answer and never appears in a live
//! buffer.
//!
//! The buffer does not cache a host pointer. `byte_range` recomputes the
//! byte span from the current length of the guest's memory on every use,
//! so holders index the live memory view instead of a stale address.

use vstd::prelude::*;

use crate::layout::BufLayout;

verus! {

/// An owned capability for one live guest allocation: its offset into the
/// guest's linear memory and the layout it was allocated with.
#[derive(Debug)]
pub struct GuestBuffer {
    offset: u32,
    layout: BufLayout,
}

impl GuestBuffer {
    /// A live buffer never sits at offset zero: zero is the guest
    /// allocator's failure answer, not an address.
    #[verifier::type_invariant]
    pub closed spec fn inv(&self) -> bool {
        self.offset != 0
    }

    /// The buffer's offset into guest memory, for contracts.
    pub closed spec fn spec_offset(&self) -> u32 {
        self.offset
    }

    /// The layout the buffer was allocated with, for contracts.
    pub closed spec fn spec_layout(&self) -> BufLayout {
        self.layout
    }

    /// Packages an offset the guest's allocator handed back. Only the
    /// response interpreters build buffers, so every live buffer traces
    /// back to a successful allocation.
    pub(crate) fn make(offset: u32, layout: BufLayout) -> (r: GuestBuffer)
        requires
            offset != 0,
        ensures
            r.spec_offset() == offset,
            r.spec_layout() == layout,
    {
        GuestBuffer { offset, layout }
    }

    /// The buffer's offset into guest memory; nonzero for every live
    /// buffer.
    #[verifier::when_used_as_spec(spec_offset)]
    pub fn offset(&self) -> (r: u32)
        ensures
            r == self.spec_offset(),
            r != 0,
    {
        proof {
            use_type_invariant(self);
        }
        self.offset
    }

    /// The layout the buffer was allocated with.
    #[verifier::when_used_as_spec(spec_layout)]
    pub fn layout(&self) -> (r: BufLayout)
        ensures
            r == self.spec_layout(),
    {
        self.layout
    }

    /// The byte span the buffer occupies inside a guest memory of
    /// `mem_len` bytes, recomputed from the live memory length: the span
    /// starts exactly at the buffer's offset and covers exactly its
    /// size. `None` when the buffer does not fit inside `mem_len` bytes,
    /// so no holder can index past the memory it was given.
    pub fn byte_range(&self, mem_len: usize) -> (r: Option<(usize, usize)>)
        ensures
            r is Some <==> self.spec_offset() + self.spec_layout().size <= mem_len,
            r matches Some((start, end)) ==> {
                &&& start == self.spec_offset()
                &&& end == self.spec_offset() + self.spec_layout().size
                &&& end <= mem_len
            },
    {
        let start: u64 = self.offset as u64;
        let end: u64 = start + self.layout.size as u64;
        if end <= mem_len as u64 {
            Some((self.offset as usize, self.offset as usize + self.layout.size as usize))
        } else {
            None
        }
    }
}

} // verus!
