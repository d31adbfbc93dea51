//! Buffer layouts as the guest understands them.
//!
//! The guest's address space is architecturally 32-bit: a size or an
//! alignment that does not fit a 32-bit integer can never describe one of
//! its allocations. `BufLayout` holds a layout that already fits, so a
//! request built from one needs no further width check; `from_usize` is
//! the one place where an oversized layout is turned away, before any
//! call could reach the guest.

use vstd::prelude::*;

verus! {

/// The shape of one guest allocation: its size and alignment in bytes,
/// both narrow enough for the guest's 32-bit address space.
#[derive(Clone, Copy, PartialEq, Eq, Structural, Debug)]
pub struct BufLayout {
    /// Size of the allocation in bytes.
    pub size: u32,
    /// Alignment of the allocation in bytes.
    pub align: u32,
}

impl BufLayout {
    /// A layout from components that are already 32-bit wide.
    pub fn new(size: u32, align: u32) -> (r: BufLayout)
        ensures
            r.size == size,
            r.align == align,
    {
        BufLayout { size, align }
    }

    /// A layout from host-native widths. Rejects, before any guest call
    /// could be built from it, any size or alignment that does not fit a
    /// 32-bit integer.
    pub fn from_usize(size: usize, align: usize) -> (r: Option<BufLayout>)
        ensures
            r is Some <==> size <= u32::MAX && align <= u32::MAX,
            r matches Some(l) ==> l.size == size && l.align == align,
    {
        if size <= u32::MAX as usize && align <= u32::MAX as usize {
            Some(BufLayout { size: size as u32, align: align as u32 })
        } else {
            None
        }
    }
}

} // verus!
