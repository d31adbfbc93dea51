//! One running copy of the module, modelled: the per-instance state the
//! host serializes — the scalar slot and the guest's allocator — driven
//! through the call protocol.
//!
//! `ModelInstance` composes the protocol's request and response steps
//! with the reference guest, so the whole path from a layout to a live
//! buffer is verified end to end. Every operation takes the instance
//! exclusively (`&mut self`): in the running system one asynchronous
//! lock serializes callers, and the model keeps the same discipline by
//! construction — no two operations can overlap on one instance.
//!
//! The instance carries a ghost ledger of every grant it has handed out.
//! Its invariant orders the ledger below the allocator's cursor, which
//! is what makes the no-overlap law provable: any two grants from one
//! instance occupy disjoint byte ranges.

use vstd::prelude::*;

use crate::buffer::GuestBuffer;
use crate::context::CrimeCtx;
use crate::guest::BumpAlloc;
use crate::guest::align_up;
use crate::guest::enter_mut;
use crate::guest::layout_valid;
use crate::layout::BufLayout;
use crate::protocol::alloc_response;
use crate::protocol::dealloc_request;
use crate::protocol::realloc_request;
use crate::protocol::realloc_response;

verus! {

/// A model instance: the host-exposed scalar slot, the guest's
/// allocator, and a ghost ledger of every `(offset, size)` grant the
/// instance has handed out, in the order it handed them out.
pub struct ModelInstance {
    ctx: CrimeCtx,
    heap: BumpAlloc,
    grants: Ghost<Seq<(u32, u32)>>,
}

impl ModelInstance {
    /// The scalar slot's current value, for contracts.
    pub closed spec fn slot(&self) -> u32 {
        self.ctx.slot()
    }

    /// The allocator's cursor, for contracts.
    pub closed spec fn heap_next(&self) -> u32 {
        self.heap.spec_next()
    }

    /// The allocator's capacity, for contracts.
    pub closed spec fn heap_cap(&self) -> u32 {
        self.heap.spec_cap()
    }

    /// Every grant the instance has handed out, oldest first.
    pub closed spec fn grants(&self) -> Seq<(u32, u32)> {
        self.grants@
    }

    /// The instance's invariant: the allocator is well formed, every
    /// grant is nonzero and ends at or before the cursor, and the
    /// grants sit in the ledger in address order, each ending before
    /// the next begins.
    pub closed spec fn wf(&self) -> bool {
        &&& self.heap.wf()
        &&& forall|i: int|
            0 <= i < self.grants@.len() ==> (#[trigger] self.grants@[i]).0 != 0
                && self.grants@[i].0 + self.grants@[i].1 <= self.heap.spec_next()
        &&& forall|i: int, j: int|
            0 <= i < j < self.grants@.len() ==> (#[trigger] self.grants@[i]).0
                + self.grants@[i].1 <= (#[trigger] self.grants@[j]).0
    }

    /// A fresh instance: slot at zero, an untouched allocator over
    /// `[base, cap)`, and an empty ledger.
    pub fn new(base: u32, cap: u32) -> (r: ModelInstance)
        requires
            0 < base <= cap,
        ensures
            r.wf(),
            r.slot() == 0,
            r.heap_next() == base,
            r.heap_cap() == cap,
            r.grants().len() == 0,
    {
        ModelInstance {
            ctx: CrimeCtx::new(),
            heap: BumpAlloc::new(base, cap),
            grants: Ghost(Seq::empty()),
        }
    }

    /// The scalar slot's current value.
    pub fn slot_value(&self) -> (r: u32)
        ensures
            r == self.slot(),
    {
        self.ctx.get()
    }

    /// The allocator's cursor: the first offset not yet handed out.
    pub fn next_free(&self) -> (r: u32)
        ensures
            r == self.heap_next(),
    {
        self.heap.next_free()
    }

    /// Asks the guest's allocator for a buffer of `layout`. `None`
    /// exactly when the layout is invalid or capacity is exhausted — a
    /// normal outcome that leaves the instance untouched. Otherwise the
    /// answer is a live buffer with the requested layout, granted past
    /// everything granted before, and the grant enters the ledger.
    pub fn call_alloc(&mut self, layout: BufLayout) -> (r: Option<GuestBuffer>)
        requires
            old(self).wf(),
        ensures
            final(self).wf(),
            final(self).slot() == old(self).slot(),
            final(self).heap_cap() == old(self).heap_cap(),
            r is Some <==> layout_valid(layout.size, layout.align) && align_up(
                old(self).heap_next() as int,
                layout.align as int,
            ) + layout.size <= old(self).heap_cap(),
            r is None ==> *final(self) == *old(self),
            r matches Some(b) ==> {
                &&& b.spec_layout() == layout
                &&& b.spec_offset() != 0
                &&& b.spec_offset() % layout.align == 0
                &&& old(self).heap_next() <= b.spec_offset()
                &&& b.spec_offset() + layout.size == final(self).heap_next()
                &&& final(self).grants() == old(self).grants().push(
                    (b.spec_offset(), layout.size),
                )
            },
    {
        let offset = self.heap.guest_alloc(layout.size, layout.align);
        if offset != 0 {
            proof {
                self.lemma_push_keeps_wf(offset, layout.size);
            }
            self.grants = Ghost(self.grants@.push((offset, layout.size)));
        }
        alloc_response(layout, offset)
    }

    /// Hands a buffer back to the guest's deallocator, consuming it: a
    /// freed buffer cannot be named again. The deallocator never fails
    /// observably, and the reference guest reclaims nothing, so the
    /// instance is left exactly as it was.
    pub fn call_dealloc(&mut self, buf: GuestBuffer)
        ensures
            *final(self) == *old(self),
    {
        let (offset, size, align) = dealloc_request(buf);
        self.heap.guest_dealloc(offset, size, align);
    }

    /// Asks the guest to resize a buffer to `new_layout`, which must
    /// keep the buffer's alignment: alignment is immutable for a
    /// buffer's whole life. `Err` gives the original buffer back
    /// unchanged — same offset, same layout, nothing freed — and the
    /// instance untouched. `Ok` is a live buffer with the new layout on
    /// a fresh grant, and the old buffer is gone.
    pub fn call_realloc(&mut self, buf: GuestBuffer, new_layout: BufLayout) -> (r: Result<
        GuestBuffer,
        GuestBuffer,
    >)
        requires
            old(self).wf(),
            new_layout.align == buf.spec_layout().align,
        ensures
            final(self).wf(),
            final(self).slot() == old(self).slot(),
            final(self).heap_cap() == old(self).heap_cap(),
            r is Ok <==> layout_valid(new_layout.size, new_layout.align) && align_up(
                old(self).heap_next() as int,
                new_layout.align as int,
            ) + new_layout.size <= old(self).heap_cap(),
            r matches Err(b) ==> b == buf && *final(self) == *old(self),
            r matches Ok(b) ==> {
                &&& b.spec_layout() == new_layout
                &&& b.spec_offset() != 0
                &&& old(self).heap_next() <= b.spec_offset()
                &&& b.spec_offset() + new_layout.size == final(self).heap_next()
                &&& final(self).grants() == old(self).grants().push(
                    (b.spec_offset(), new_layout.size),
                )
            },
    {
        let (offset, old_size, align, new_size) = realloc_request(&buf, new_layout);
        let new_offset = self.heap.guest_realloc(offset, old_size, align, new_size);
        if new_offset != 0 {
            proof {
                self.lemma_push_keeps_wf(new_offset, new_size);
            }
            self.grants = Ghost(self.grants@.push((new_offset, new_size)));
        }
        realloc_response(buf, new_layout, new_offset)
    }

    /// Invokes the guest's entry point on a buffer: the guest
    /// round-trips the scalar slot through its imported `get` and `put`
    /// (wrapping at the 32-bit boundary) and answers with the length it
    /// was handed. The buffer is only read, not consumed.
    pub fn call_enter(&mut self, buf: &GuestBuffer, len: u32) -> (r: u32)
        ensures
            old(self).slot() < u32::MAX ==> final(self).slot() == old(self).slot() + 1,
            old(self).slot() == u32::MAX ==> final(self).slot() == 0,
            final(self).heap_next() == old(self).heap_next(),
            final(self).heap_cap() == old(self).heap_cap(),
            final(self).grants() == old(self).grants(),
            r == len,
    {
        enter_mut(&mut self.ctx, buf.offset(), len)
    }

    /// A grant starting at or past the cursor, ending at the new
    /// cursor, keeps the ledger well formed when appended.
    proof fn lemma_push_keeps_wf(&self, offset: u32, size: u32)
        requires
            forall|i: int|
                0 <= i < self.grants@.len() ==> (#[trigger] self.grants@[i]).0 != 0
                    && self.grants@[i].0 + self.grants@[i].1 <= offset,
            forall|i: int, j: int|
                0 <= i < j < self.grants@.len() ==> (#[trigger] self.grants@[i]).0
                    + self.grants@[i].1 <= (#[trigger] self.grants@[j]).0,
            offset != 0,
        ensures
            forall|i: int, j: int|
                0 <= i < j < self.grants@.push((offset, size)).len() ==> (
                #[trigger] self.grants@.push((offset, size))[i]).0 + self.grants@.push(
                    (offset, size),
                )[i].1 <= (#[trigger] self.grants@.push((offset, size))[j]).0,
            forall|i: int|
                0 <= i < self.grants@.push((offset, size)).len() ==> (#[trigger] self.grants@.push(
                    (offset, size),
                )[i]).0 != 0 && self.grants@.push((offset, size))[i].0 + self.grants@.push(
                    (offset, size),
                )[i].1 <= offset + size,
    {
        let pushed = self.grants@.push((offset, size));
        assert forall|i: int, j: int| 0 <= i < j < pushed.len() implies (#[trigger] pushed[i]).0
            + pushed[i].1 <= (#[trigger] pushed[j]).0 by {
            if j < self.grants@.len() {
                assert(pushed[i] == self.grants@[i]);
                assert(pushed[j] == self.grants@[j]);
            } else {
                assert(pushed[i] == self.grants@[i]);
                assert(pushed[j] == (offset, size));
            }
        }
        assert forall|i: int| 0 <= i < pushed.len() implies (#[trigger] pushed[i]).0 != 0 && pushed[i].0
            + pushed[i].1 <= offset + size by {
            if i < self.grants@.len() {
                assert(pushed[i] == self.grants@[i]);
            }
        }
    }
}

/// Any two grants one instance has handed out occupy disjoint byte
/// ranges: the earlier one ends at or before the later one begins.
pub proof fn lemma_instance_grants_disjoint(m: ModelInstance, i: int, j: int)
    requires
        m.wf(),
        0 <= i < m.grants().len(),
        0 <= j < m.grants().len(),
        i != j,
    ensures
        m.grants()[i].0 + m.grants()[i].1 <= m.grants()[j].0 || m.grants()[j].0 + m.grants()[j].1
            <= m.grants()[i].0,
{
}

} // verus!
