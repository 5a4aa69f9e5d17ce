use phonix_fx::ring::{chunk_frame, ring_advance, ring_back};
use phonix_fx::slot_params::SlotFxParams;

#[test]
fn a_read_gives_back_the_last_write() {
    let mut p = SlotFxParams::new();
    assert_eq!(p.get_bits(3, 42), 0);
    p.set_bits(3, 42, 0.75f32.to_bits());
    assert_eq!(f32::from_bits(p.get_bits(3, 42)), 0.75);
    assert_eq!(p.get_bits(3, 41), 0);
    assert_eq!(p.get_bits(2, 42), 0);
    // Out of range: ignored on write, 0 on read.
    p.set_bits(8, 0, 7);
    p.set_bits(0, 100, 7);
    assert_eq!(p.get_bits(8, 0), 0);
    assert_eq!(p.get_bits(0, 100), 0);
}

#[test]
fn copy_and_clear_slots() {
    let mut p = SlotFxParams::new();
    p.set_bits(1, 0, 11);
    p.set_bits(1, 99, 22);
    p.set_bits(5, 10, 33);
    p.copy_slot(1, 5);
    assert_eq!(p.get_bits(5, 0), 11);
    assert_eq!(p.get_bits(5, 99), 22);
    assert_eq!(p.get_bits(5, 10), 0);
    assert_eq!(p.get_bits(1, 0), 11);
    p.copy_slot(1, 8);
    p.clear_slot(1);
    assert_eq!(p.get_bits(1, 0), 0);
    assert_eq!(p.get_bits(1, 99), 0);
    assert_eq!(p.get_bits(5, 99), 22);
    p.clear_slot(8);
    assert_eq!(p.get_bits(5, 0), 11);
}

#[test]
fn ring_positions_wrap() {
    assert_eq!(ring_back(5, 3, 10), 2);
    assert_eq!(ring_back(1, 3, 10), 8);
    assert_eq!(ring_back(4, 10, 10), 4);
    assert_eq!(ring_back(0, 0, 1), 0);
    assert_eq!(ring_advance(8, 10), 9);
    assert_eq!(ring_advance(9, 10), 0);
}

#[test]
fn stutter_chunks_end_at_the_write_head() {
    // A chunk of 4 frames captured with the head at frame 2 of 10.
    let start = ring_back(2, 4, 10);
    assert_eq!(start, 8);
    assert_eq!(chunk_frame(start, 4, 10, 0, false), 8);
    assert_eq!(chunk_frame(start, 4, 10, 3, false), 1);
    assert_eq!(chunk_frame(start, 4, 10, 4, false), 8);
    assert_eq!(chunk_frame(start, 4, 10, 0, true), 1);
    assert_eq!(chunk_frame(start, 4, 10, 3, true), 8);
    for s in 0..8 {
        assert_eq!(chunk_frame(start, 4, 10, s, true), chunk_frame(start, 4, 10, 3 - s % 4, false));
    }
}
