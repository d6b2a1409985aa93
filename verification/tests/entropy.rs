use shadow_protocol::entropy::{custom_random, seed_from_clock, FALLBACK_SEED};

#[test]
fn stream_from_fallback_seed() {
    assert_eq!(custom_random(FALLBACK_SEED, 8), vec![22, 39, 106, 206, 249, 100, 61, 224]);
}

#[test]
fn stream_wraps_at_64_bits() {
    assert_eq!(custom_random(0, 4), vec![48, 22, 118, 83]);
    assert_eq!(custom_random(u64::MAX, 4), vec![225, 124, 185, 212]);
}

#[test]
fn stream_is_a_prefix_of_itself() {
    let long = custom_random(99, 40);
    let short = custom_random(99, 7);
    assert_eq!(long.len(), 40);
    assert_eq!(&long[..7], &short[..]);
    assert!(custom_random(99, 0).is_empty());
}

#[test]
fn seed_adds_slot_and_time() {
    assert_eq!(seed_from_clock(10, 5), 15);
    assert_eq!(seed_from_clock(10, -1), 9);
    assert_eq!(seed_from_clock(u64::MAX, 2), 1);
}
