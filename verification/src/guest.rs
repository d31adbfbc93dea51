//! The guest contract, made concrete: a verified model of the allocator
//! and entry point every hostable module must export.
//!
//! `BumpAlloc` is a reference guest allocator over a 32-bit address
//! space. It answers exactly as the contract demands — zero for an
//! invalid layout or exhausted capacity, otherwise a nonzero, aligned
//! offset — and its contracts are strong enough to prove that distinct
//! grants never overlap and that capacity really runs out. It places
//! blocks by bumping a cursor and keeps no per-allocation record, so
//! deallocation is observably a no-op, which the contract permits: the
//! deallocator never fails observably.
//!
//! `enter_mut` is the demo guest's entry point as the host observes it:
//! it round-trips the scalar slot through its imported `get` and `put`
//! and answers with the length it was handed.

use vstd::prelude::*;

use crate::context::CrimeCtx;

verus! {

/// A layout the guest-side allocator accepts: a nonzero power-of-two
/// alignment.
pub open spec fn layout_valid(size: u32, align: u32) -> bool {
    align != 0 && (align & ((align - 1) as u32)) == 0
}

/// The least multiple of `a` that is at least `x`.
pub open spec fn align_up(x: int, a: int) -> int
    recommends
        0 < a,
{
    if x % a == 0 {
        x
    } else {
        x + a - x % a
    }
}

/// A reference guest allocator: blocks are carved from the address range
/// `[next, cap)` in order, and the cursor only ever moves forward.
pub struct BumpAlloc {
    next: u32,
    cap: u32,
}

/// One successful allocation, as a relation between the allocator's
/// state before and after: the block starts at or past the old cursor,
/// ends at the new cursor, and stays inside an unchanged capacity.
pub open spec fn alloc_grant(pre: BumpAlloc, post: BumpAlloc, offset: u32, size: u32) -> bool {
    &&& pre.spec_next() <= offset
    &&& offset + size == post.spec_next()
    &&& post.spec_next() <= post.spec_cap()
    &&& post.spec_cap() == pre.spec_cap()
}

impl BumpAlloc {
    /// The allocator's cursor sits past offset zero — zero is the
    /// failure answer, never an address — and never past its capacity.
    pub closed spec fn wf(&self) -> bool {
        0 < self.next <= self.cap
    }

    /// The first offset not yet handed out, for contracts.
    pub closed spec fn spec_next(&self) -> u32 {
        self.next
    }

    /// One past the last usable offset, for contracts.
    pub closed spec fn spec_cap(&self) -> u32 {
        self.cap
    }

    /// A fresh allocator over the address range `[base, cap)`. The base
    /// is nonzero so that no grant can ever sit at the failure offset.
    pub fn new(base: u32, cap: u32) -> (r: BumpAlloc)
        requires
            0 < base <= cap,
        ensures
            r.wf(),
            r.spec_next() == base,
            r.spec_cap() == cap,
    {
        BumpAlloc { next: base, cap }
    }

    /// The first offset not yet handed out.
    #[verifier::when_used_as_spec(spec_next)]
    pub fn next_free(&self) -> (r: u32)
        ensures
            r == self.spec_next(),
    {
        self.next
    }

    /// One past the last usable offset.
    #[verifier::when_used_as_spec(spec_cap)]
    pub fn capacity(&self) -> (r: u32)
        ensures
            r == self.spec_cap(),
    {
        self.cap
    }

    /// `guest_alloc(size, align) -> offset`: zero exactly when the
    /// layout is invalid or the remaining capacity cannot hold an
    /// aligned block of `size` bytes — exhaustion is a normal answer,
    /// and it leaves the allocator untouched. A nonzero answer is an
    /// aligned offset at or past the cursor, and the cursor moves to the
    /// end of the granted block.
    pub fn guest_alloc(&mut self, size: u32, align: u32) -> (offset: u32)
        requires
            old(self).wf(),
        ensures
            final(self).wf(),
            final(self).spec_cap() == old(self).spec_cap(),
            offset == 0 ==> *final(self) == *old(self),
            offset != 0 <==> layout_valid(size, align) && align_up(
                old(self).spec_next() as int,
                align as int,
            ) + size <= old(self).spec_cap(),
            offset != 0 ==> {
                &&& offset == align_up(old(self).spec_next() as int, align as int)
                &&& offset % align == 0
                &&& alloc_grant(*old(self), *final(self), offset, size)
            },
    {
        if !(align != 0 && (align & (align - 1)) == 0) {
            return 0;
        }
        let rem: u32 = self.next % align;
        let off: u64 = if rem == 0 {
            self.next as u64
        } else {
            self.next as u64 + (align - rem) as u64
        };
        assert(off == align_up(self.next as int, align as int));
        let end: u64 = off + size as u64;
        if end <= self.cap as u64 {
            proof {
                lemma_aligned(self.next as int, align as int);
            }
            self.next = end as u32;
            off as u32
        } else {
            0
        }
    }

    /// `guest_dealloc(offset, size, align)`: by contract it never fails
    /// observably, and this allocator keeps no per-allocation record to
    /// reclaim from, so it leaves the allocator exactly as it was.
    pub fn guest_dealloc(&mut self, _offset: u32, _size: u32, _align: u32)
        ensures
            *final(self) == *old(self),
    {
    }

    /// `guest_realloc(offset, old_size, align, new_size) -> new_offset`:
    /// zero exactly when no aligned block of `new_size` bytes fits,
    /// and then nothing changes — the old allocation is left untouched
    /// and still owned by the caller. Otherwise the answer is a fresh
    /// grant for the new size; the old block's offset and size do not
    /// move the cursor, since this allocator reclaims nothing.
    pub fn guest_realloc(
        &mut self,
        _offset: u32,
        _old_size: u32,
        align: u32,
        new_size: u32,
    ) -> (new_offset: u32)
        requires
            old(self).wf(),
        ensures
            final(self).wf(),
            final(self).spec_cap() == old(self).spec_cap(),
            new_offset == 0 ==> *final(self) == *old(self),
            new_offset != 0 <==> layout_valid(new_size, align) && align_up(
                old(self).spec_next() as int,
                align as int,
            ) + new_size <= old(self).spec_cap(),
            new_offset != 0 ==> {
                &&& new_offset % align == 0
                &&& alloc_grant(*old(self), *final(self), new_offset, new_size)
            },
    {
        self.guest_alloc(new_size, align)
    }
}

/// An offset rounded up to an alignment is a multiple of it.
proof fn lemma_aligned(x: int, a: int)
    requires
        0 <= x,
        0 < a,
    ensures
        align_up(x, a) % a == 0,
{
    if x % a != 0 {
        vstd::arithmetic::div_mod::lemma_fundamental_div_mod(x, a);
        let q = x / a;
        let r = x % a;
        assert(x + a - r == (q + 1) * a) by (nonlinear_arith)
            requires
                x == a * q + r,
        ;
        vstd::arithmetic::div_mod::lemma_mod_multiples_basic(q + 1, a);
    }
}

/// Grants never overlap: a grant begins at or past the allocator's
/// cursor and leaves the cursor past its own end, so a grant made from a
/// later state lies entirely past an earlier one. Two buffers handed out
/// by successful allocations therefore occupy disjoint byte ranges.
pub proof fn lemma_grants_disjoint(
    a0: BumpAlloc,
    a1: BumpAlloc,
    o1: u32,
    s1: u32,
    b0: BumpAlloc,
    b1: BumpAlloc,
    o2: u32,
    s2: u32,
)
    requires
        alloc_grant(a0, a1, o1, s1),
        alloc_grant(b0, b1, o2, s2),
        a1.spec_next() <= b0.spec_next(),
    ensures
        o1 + s1 <= o2,
{
}

/// The demo guest's entry point, as the host observes it: it reads the
/// scalar slot through its imported `get`, writes back the successor
/// through `put` (wrapping at the 32-bit boundary), leaves the handed
/// bytes as they were, and answers with the length it was given.
pub fn enter_mut(ctx: &mut CrimeCtx, _offset: u32, len: u32) -> (r: u32)
    ensures
        old(ctx).slot() < u32::MAX ==> final(ctx).slot() == old(ctx).slot() + 1,
        old(ctx).slot() == u32::MAX ==> final(ctx).slot() == 0,
        r == len,
{
    let v = ctx.get();
    ctx.put(v.wrapping_add(1));
    len
}

} // verus!
