//! The model guest: allocator behaviour, exhaustion, and the entry
//! point's observable effects.

use wasm_crimes::BufLayout;
use wasm_crimes::BumpAlloc;
use wasm_crimes::CrimeCtx;
use wasm_crimes::alloc_response;
use wasm_crimes::enter_mut;

#[test]
fn alloc_returns_nonzero_aligned_offsets() {
    let mut a = BumpAlloc::new(8, 64);
    let o1 = a.guest_alloc(16, 8);
    assert_eq!(o1, 8);
    assert_eq!(a.next_free(), 24);
    let o2 = a.guest_alloc(10, 8);
    assert_eq!(o2, 24);
    assert_eq!(a.next_free(), 34);
    let o3 = a.guest_alloc(4, 8);
    assert_eq!(o3, 40);
}

#[test]
fn alloc_rejects_invalid_layouts() {
    let mut a = BumpAlloc::new(8, 64);
    assert_eq!(a.guest_alloc(16, 0), 0);
    assert_eq!(a.guest_alloc(16, 3), 0);
    assert_eq!(a.next_free(), 8);
}

#[test]
fn alloc_failure_leaves_the_allocator_untouched() {
    let mut a = BumpAlloc::new(8, 64);
    assert_eq!(a.guest_alloc(100, 8), 0);
    assert_eq!(a.next_free(), 8);
    assert_eq!(a.capacity(), 64);
}

#[test]
fn dealloc_never_fails_and_changes_nothing() {
    let mut a = BumpAlloc::new(8, 64);
    let o = a.guest_alloc(16, 8);
    a.guest_dealloc(o, 16, 8);
    a.guest_dealloc(0, 16, 8);
    assert_eq!(a.next_free(), 24);
    assert_eq!(a.capacity(), 64);
}

#[test]
fn realloc_failure_changes_nothing() {
    let mut a = BumpAlloc::new(8, 64);
    let o = a.guest_alloc(16, 8);
    assert_eq!(a.guest_realloc(o, 16, 8, 1000), 0);
    assert_eq!(a.next_free(), 24);
}

#[test]
fn realloc_success_grants_a_fresh_aligned_block() {
    let mut a = BumpAlloc::new(8, 64);
    let o = a.guest_alloc(16, 8);
    let moved = a.guest_realloc(o, 16, 8, 32);
    assert_eq!(moved, 24);
    assert_eq!(a.next_free(), 56);
}

#[test]
fn disjoint_buffers_never_contaminate_each_other() {
    let mut mem = vec![0u8; 64];
    let mut a = BumpAlloc::new(8, 64);

    let l1 = BufLayout::new(16, 8);
    let b1 = alloc_response(l1, a.guest_alloc(l1.size, l1.align)).unwrap();
    let l2 = BufLayout::new(12, 4);
    let b2 = alloc_response(l2, a.guest_alloc(l2.size, l2.align)).unwrap();

    let (s1, e1) = b1.byte_range(mem.len()).unwrap();
    let (s2, e2) = b2.byte_range(mem.len()).unwrap();
    assert!(e1 <= s2 || e2 <= s1);

    mem[s1..e1].fill(0xAA);
    mem[s2..e2].fill(0xBB);
    assert!(mem[s1..e1].iter().all(|&x| x == 0xAA));
    assert!(mem[s2..e2].iter().all(|&x| x == 0xBB));
}

#[test]
fn repeated_large_allocations_exhaust_capacity() {
    let gib: u32 = 1024 * 1024 * 1024;
    let mut a = BumpAlloc::new(8, u32::MAX);
    let o1 = a.guest_alloc(gib, 8);
    let o2 = a.guest_alloc(gib, 8);
    let o3 = a.guest_alloc(gib, 8);
    assert!(o1 != 0 && o2 != 0 && o3 != 0);
    let o4 = a.guest_alloc(gib, 8);
    assert_eq!(o4, 0);
    assert_eq!(a.guest_alloc(16, 8), 8 + 3 * gib);
}

#[test]
fn slot_round_trips_through_get_and_put() {
    let mut ctx = CrimeCtx::new();
    assert_eq!(ctx.get(), 0);
    assert_eq!(ctx.put(5), 0);
    assert_eq!(ctx.get(), 5);
    assert_eq!(ctx.put(7), 5);
    assert_eq!(ctx.get(), 7);
}

#[test]
fn enter_mut_bumps_the_slot_and_returns_the_length() {
    let mut ctx = CrimeCtx::new();
    let r = enter_mut(&mut ctx, 40, 2);
    assert_eq!(r, 2);
    assert_eq!(ctx.get(), 1);
    let r2 = enter_mut(&mut ctx, 40, 9);
    assert_eq!(r2, 9);
    assert_eq!(ctx.get(), 2);
}

#[test]
fn enter_mut_wraps_the_slot_at_the_32_bit_boundary() {
    let mut ctx = CrimeCtx::new();
    ctx.put(u32::MAX);
    enter_mut(&mut ctx, 0, 0);
    assert_eq!(ctx.get(), 0);
}

#[test]
fn enter_mut_leaves_the_handed_bytes_unchanged() {
    let mut mem = vec![0u8; 64];
    let mut a = BumpAlloc::new(8, 64);
    let l = BufLayout::new(2, 1);
    let b = alloc_response(l, a.guest_alloc(l.size, l.align)).unwrap();
    let (s, e) = b.byte_range(mem.len()).unwrap();
    mem[s..e].copy_from_slice(b"ab");
    let mut ctx = CrimeCtx::new();
    enter_mut(&mut ctx, b.offset(), 2);
    assert_eq!(&mem[s..e], b"ab");
}
