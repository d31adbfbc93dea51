//! The host side of the call protocol: layout screening, response
//! interpretation, and the buffer capability.

use wasm_crimes::BufLayout;
use wasm_crimes::alloc_response;
use wasm_crimes::dealloc_request;
use wasm_crimes::realloc_request;
use wasm_crimes::realloc_response;

#[test]
fn layout_new_keeps_components() {
    let l = BufLayout::new(16, 8);
    assert_eq!(l.size, 16);
    assert_eq!(l.align, 8);
}

#[test]
fn layout_from_usize_accepts_32_bit_components() {
    let l = BufLayout::from_usize(16, 8).unwrap();
    assert_eq!(l.size, 16);
    assert_eq!(l.align, 8);
    let max = BufLayout::from_usize(u32::MAX as usize, u32::MAX as usize).unwrap();
    assert_eq!(max.size, u32::MAX);
    assert_eq!(max.align, u32::MAX);
}

#[test]
fn layout_from_usize_rejects_oversized_size() {
    assert!(BufLayout::from_usize(u32::MAX as usize + 1, 8).is_none());
}

#[test]
fn layout_from_usize_rejects_oversized_align() {
    assert!(BufLayout::from_usize(16, u32::MAX as usize + 1).is_none());
}

#[test]
fn alloc_response_zero_offset_is_no_buffer() {
    let l = BufLayout::new(16, 8);
    assert!(alloc_response(l, 0).is_none());
}

#[test]
fn alloc_response_nonzero_offset_is_live_buffer() {
    let l = BufLayout::new(16, 8);
    let b = alloc_response(l, 40).unwrap();
    assert_eq!(b.offset(), 40);
    assert_eq!(b.layout(), l);
}

#[test]
fn byte_range_recomputes_span_from_memory_length() {
    let l = BufLayout::new(16, 8);
    let b = alloc_response(l, 40).unwrap();
    let (start, end) = b.byte_range(64).unwrap();
    assert_eq!(start, 40);
    assert_eq!(end, 56);
}

#[test]
fn byte_range_refuses_a_span_past_the_memory() {
    let l = BufLayout::new(16, 8);
    let b = alloc_response(l, 40).unwrap();
    assert!(b.byte_range(55).is_none());
    assert!(b.byte_range(56).is_some());
}

#[test]
fn dealloc_request_consumes_and_echoes_the_allocation() {
    let l = BufLayout::new(16, 8);
    let b = alloc_response(l, 40).unwrap();
    let (offset, size, align) = dealloc_request(b);
    assert_eq!(offset, 40);
    assert_eq!(size, 16);
    assert_eq!(align, 8);
}

#[test]
fn realloc_request_forwards_old_shape_and_new_size() {
    let l = BufLayout::new(16, 8);
    let b = alloc_response(l, 40).unwrap();
    let (offset, old_size, align, new_size) = realloc_request(&b, BufLayout::new(32, 8));
    assert_eq!(offset, 40);
    assert_eq!(old_size, 16);
    assert_eq!(align, 8);
    assert_eq!(new_size, 32);
}

#[test]
fn failed_realloc_returns_the_original_buffer_unchanged() {
    let l = BufLayout::new(16, 8);
    let b = alloc_response(l, 40).unwrap();
    let back = realloc_response(b, BufLayout::new(32, 8), 0).unwrap_err();
    assert_eq!(back.offset(), 40);
    assert_eq!(back.layout(), l);
}

#[test]
fn successful_realloc_moves_the_buffer_and_keeps_its_alignment() {
    let l = BufLayout::new(16, 8);
    let b = alloc_response(l, 40).unwrap();
    let new_layout = BufLayout::new(32, 8);
    let moved = realloc_response(b, new_layout, 104).unwrap();
    assert_eq!(moved.offset(), 104);
    assert_eq!(moved.layout(), new_layout);
    assert_eq!(moved.layout().align, l.align);
}
