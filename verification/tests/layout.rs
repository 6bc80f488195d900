use pinned_init::ptr_buf::{PtrBuf, PtrBufUninit};
use pinned_init::static_uninit::StaticUninit;
use pinned_init::transmute::layouts_match;

#[test]
fn the_two_representations_of_a_cell_share_their_layout() {
    assert!(layouts_match::<StaticUninit<u8, false>, StaticUninit<u8, true>>());
    assert!(layouts_match::<StaticUninit<usize, false>, StaticUninit<usize, true>>());
    assert!(layouts_match::<StaticUninit<[u64; 9], false>, StaticUninit<[u64; 9], true>>());
    assert!(layouts_match::<StaticUninit<String, false>, StaticUninit<String, true>>());
}

#[test]
fn the_two_representations_of_a_buffer_share_their_layout() {
    assert!(layouts_match::<PtrBufUninit<u8, 0>, PtrBuf<u8, 0>>());
    assert!(layouts_match::<PtrBufUninit<u8, 3>, PtrBuf<u8, 3>>());
    assert!(layouts_match::<PtrBufUninit<u64, 64>, PtrBuf<u64, 64>>());
    assert!(layouts_match::<PtrBufUninit<String, 5>, PtrBuf<String, 5>>());
}

#[test]
fn a_difference_in_size_is_found() {
    assert!(!layouts_match::<u8, u16>());
    assert!(!layouts_match::<[u8; 3], [u8; 4]>());
    assert!(!layouts_match::<PtrBufUninit<u8, 3>, PtrBuf<u8, 64>>());
}

#[test]
fn a_difference_in_alignment_is_found() {
    assert!(!layouts_match::<[u8; 8], u64>());
    assert!(!layouts_match::<[u16; 2], u32>());
}

#[test]
fn a_type_shares_its_layout_with_itself() {
    assert!(layouts_match::<u8, u8>());
    assert!(layouts_match::<u8, i8>());
    assert!(layouts_match::<(), ()>());
}
