use kernel_core::physbuf::frames_contiguous;

#[test]
fn consecutive_frames_are_accepted() {
    assert!(frames_contiguous(&vec![0x1000, 0x2000, 0x3000]));
    assert!(frames_contiguous(&vec![0x7000]));
    assert!(frames_contiguous(&vec![]));
}

#[test]
fn gapped_frames_are_rejected() {
    // The allocator must retry: a hole between pages breaks DMA.
    assert!(!frames_contiguous(&vec![0x1000, 0x3000]));
    assert!(!frames_contiguous(&vec![0x1000, 0x2000, 0x2000]));
    assert!(!frames_contiguous(&vec![0x2000, 0x1000]));
}
