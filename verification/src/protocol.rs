//! The call protocol between the host and the guest's allocator.
//!
//! Every cross-boundary call is a pair of steps: the host builds the
//! 32-bit arguments it will hand to the guest, and it interprets the
//! 32-bit answer the guest handed back. The transport in between — the
//! engine dispatch that may suspend, trap or run out of its execution
//! slice — cannot be reasoned about here, so these functions state what
//! holds of every answer: the interpreters are verified for every value
//! the guest could return.
//!
//! Offset zero is the guest allocator's "no buffer" answer. It is a
//! normal outcome (the guest ran out of capacity), never an error, and
//! the interpreters turn it into an absent or returned-back buffer
//! rather than a live one.

use vstd::prelude::*;

use crate::buffer::GuestBuffer;
use crate::layout::BufLayout;

verus! {

/// Interprets the guest allocator's answer to an allocation request for
/// `layout`: zero means the guest had no buffer to give, and any nonzero
/// offset becomes a live buffer at exactly that offset with exactly the
/// requested layout.
pub fn alloc_response(layout: BufLayout, offset: u32) -> (r: Option<GuestBuffer>)
    ensures
        r is Some <==> offset != 0,
        r matches Some(b) ==> b.spec_offset() == offset && b.spec_layout() == layout,
{
    if offset == 0 {
        None
    } else {
        Some(GuestBuffer::make(offset, layout))
    }
}

/// Retires a buffer and yields the arguments for the guest's
/// deallocator: the buffer's own offset, size and alignment, exactly as
/// it was allocated. Taking the buffer by value consumes it, so a freed
/// allocation cannot be named again.
pub fn dealloc_request(buf: GuestBuffer) -> (r: (u32, u32, u32))
    ensures
        r.0 == buf.spec_offset(),
        r.0 != 0,
        r.1 == buf.spec_layout().size,
        r.2 == buf.spec_layout().align,
{
    proof {
        use_type_invariant(&buf);
    }
    let layout = buf.layout();
    (buf.offset(), layout.size, layout.align)
}

/// Builds the arguments for the guest's reallocator: the buffer's
/// current offset and size, the shared alignment, and the new size. A
/// buffer's alignment is immutable for its whole life, so a new layout
/// with a different alignment is a contract violation and no request can
/// be built from it.
pub fn realloc_request(buf: &GuestBuffer, new_layout: BufLayout) -> (r: (u32, u32, u32, u32))
    requires
        new_layout.align == buf.spec_layout().align,
    ensures
        r.0 == buf.spec_offset(),
        r.0 != 0,
        r.1 == buf.spec_layout().size,
        r.2 == buf.spec_layout().align,
        r.3 == new_layout.size,
{
    proof {
        use_type_invariant(buf);
    }
    let layout = buf.layout();
    (buf.offset(), layout.size, layout.align, new_layout.size)
}

/// Interprets the guest reallocator's answer. Zero means the guest could
/// not move the allocation: the original buffer comes back unchanged —
/// same offset, same layout, still owned by the caller, nothing freed.
/// A nonzero offset means the old allocation is gone and the answer is a
/// live buffer at the new offset with the new layout; the old buffer was
/// consumed, so it cannot be used again. Either way the buffer that
/// comes out carries the alignment the original was allocated with.
pub fn realloc_response(buf: GuestBuffer, new_layout: BufLayout, new_offset: u32) -> (r: Result<
    GuestBuffer,
    GuestBuffer,
>)
    requires
        new_layout.align == buf.spec_layout().align,
    ensures
        r is Ok <==> new_offset != 0,
        r matches Ok(b) ==> b.spec_offset() == new_offset && b.spec_layout() == new_layout,
        r matches Err(b) ==> b == buf,
        (match r {
            Ok(b) => b.spec_layout().align,
            Err(b) => b.spec_layout().align,
        }) == buf.spec_layout().align,
{
    if new_offset == 0 {
        Err(buf)
    } else {
        Ok(GuestBuffer::make(new_offset, new_layout))
    }
}

} // verus!
