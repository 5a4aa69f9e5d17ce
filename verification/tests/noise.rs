use phonix_fx::noise::{choir_seed, reflection_hash, velvet_taps, xorshift32, VelvetTap};

#[test]
fn xorshift_steps_match_known_values() {
    assert_eq!(xorshift32(0xDEAD_BEEF), 0x477d_20b7);
    assert_eq!(xorshift32(1), 0x0004_2021);
    assert_eq!(xorshift32(0), 0);
    let mut s = 0xDEAD_BEEFu32;
    for _ in 0..10_000 {
        s = xorshift32(s);
        assert_ne!(s, 0);
    }
}

#[test]
fn choir_seeds_are_odd_and_distinct() {
    assert_eq!(choir_seed(0), 0x0b62_f3af);
    assert_eq!(choir_seed(1), 0x788e_6da3);
    assert_eq!(choir_seed(2), 0xe5b9_e799);
    for v in 0..12 {
        assert_eq!(choir_seed(v) & 1, 1);
    }
}

#[test]
fn reflection_hashes_for_a_room_seed() {
    assert_eq!(reflection_hash(0x1111, 1), 24997);
    assert_eq!(reflection_hash(0x1111, 2), 24948);
    assert_eq!(reflection_hash(0, 0), 0);
    assert!(reflection_hash(u32::MAX, u32::MAX) <= 0xFFFF);
}

#[test]
fn velvet_taps_stay_inside_the_window() {
    // 25 ms at 48 kHz plus two samples of headroom.
    let len = 1202;
    let (left, right) = velvet_taps(len);
    assert_eq!(left.len(), 64);
    assert_eq!(right.len(), 64);
    assert_eq!(left[0], VelvetTap { delay: 11, positive: true });
    assert_eq!(left[1], VelvetTap { delay: 32, positive: false });
    assert_eq!(left[3], VelvetTap { delay: 72, positive: false });
    assert_eq!(left[63], VelvetTap { delay: 1187, positive: false });
    assert_eq!(right[0], VelvetTap { delay: 7, positive: true });
    assert_eq!(right[1], VelvetTap { delay: 33, positive: true });
    for t in left.iter().chain(right.iter()) {
        assert!(t.delay >= 1 && t.delay < len);
    }
    let (tiny_l, _) = velvet_taps(2);
    assert!(tiny_l.iter().all(|t| t.delay == 1));
}
