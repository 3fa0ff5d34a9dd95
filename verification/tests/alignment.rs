use renderer::memory::align_to;

#[test]
fn align_to_rounds_up_to_power_of_two() {
    assert_eq!(align_to(5, 4), 8);
    assert_eq!(align_to(1, 64), 64);
    assert_eq!(align_to(100, 32), 128);
}

#[test]
fn align_to_keeps_aligned_values() {
    assert_eq!(align_to(8, 4), 8);
    assert_eq!(align_to(0, 256), 0);
    assert_eq!(align_to(64, 64), 64);
}

#[test]
fn align_to_with_alignment_one_is_identity() {
    assert_eq!(align_to(0, 1), 0);
    assert_eq!(align_to(7, 1), 7);
    assert_eq!(align_to(usize::MAX, 1), usize::MAX);
}

#[test]
fn align_to_non_power_of_two_clears_mask_bits() {
    // (7 + 2) & !2 == 9
    assert_eq!(align_to(7, 3), 9);
    // (4 + 2) & !2 == 4
    assert_eq!(align_to(4, 3), 4);
}

#[test]
fn align_to_is_idempotent_for_powers_of_two() {
    for value in 0..300usize {
        for shift in 0..9 {
            let a = 1usize << shift;
            let once = align_to(value, a);
            assert_eq!(align_to(once, a), once);
            assert_eq!(once % a, 0);
            assert!(once >= value && once < value + a);
        }
    }
}

#[test]
fn util_align_to_matches_memory_align_to() {
    for value in 0..100usize {
        assert_eq!(renderer::util::align_to(value, 16), align_to(value, 16));
    }
}
