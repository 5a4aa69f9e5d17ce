use phonix_fx::tuning::{pitch_class, HarmonyDegrees, KeySelection, ResonatorTuning};

#[test]
fn song_key_applies_only_in_follow_mode() {
    let mut fx = KeySelection::new();
    // Manual mode: broadcast ignored, manual setters win.
    fx.set_key(4); // E
    fx.set_song_key(9, 2);
    assert_eq!(fx.key(), 4, "manual mode must ignore the song key");
    // Follow mode: broadcast wins, manual setters are inert.
    fx.set_follow(true);
    fx.set_song_key(9, 2); // A minor
    assert_eq!(fx.key(), 9);
    assert_eq!(fx.scale_idx(), 2);
    fx.set_key(0);
    assert_eq!(fx.key(), 9, "manual key must not override follow mode");
    let mut h = KeySelection::new();
    h.set_follow(true);
    h.set_song_key(2, 1);
    assert_eq!(h.key(), 2);
}

#[test]
fn keys_reduce_to_pitch_classes_and_scales_clamp() {
    let mut k = KeySelection::new();
    k.set_key(-1);
    assert_eq!(k.key(), 11);
    k.set_key(26);
    assert_eq!(k.key(), 2);
    k.set_scale(40);
    assert_eq!(k.scale_idx(), 8);
    k.set_follow(true);
    k.set_song_key(61, 100);
    assert_eq!(k.key(), 1);
    assert_eq!(k.scale_idx(), 8);
    assert_eq!(pitch_class(-13), 11);
    assert_eq!(pitch_class(12), 0);
}

#[test]
fn harmony_degrees_clamp_and_switch_voices() {
    let mut h = HarmonyDegrees::new();
    assert_eq!(h.degree(0), 2);
    assert_eq!(h.degree(1), -3);
    assert!(!h.voice_enabled(2));
    h.set_degree(2, 12);
    assert_eq!(h.degree(2), 7);
    assert!(h.voice_enabled(2));
    h.set_degree(0, -20);
    assert_eq!(h.degree(0), -7);
    h.set_degree(1, 0);
    assert!(!h.voice_enabled(1));
    h.set_degree(3, 5);
    assert_eq!(h.degree(0), -7);
}

#[test]
fn a_handed_chord_waits_for_follow() {
    let mut t = ResonatorTuning::new();
    // C major from C3.
    assert_eq!(t.voice_notes(), [48, 52, 55, 60, 64, 67, 72, 76]);
    t.set_key_chord(9, &[0, 3, 7]);
    assert_eq!(t.voice_notes()[0], 48, "the chord waits for follow");
    t.set_follow(true);
    // A minor spread over the voices from A3 (MIDI 57) up.
    assert_eq!(t.voice_notes(), [57, 60, 64, 69, 72, 76, 81, 84]);
    t.set_octave(5);
    assert_eq!(t.voice_notes()[0], 57 + 24);
    t.set_key_chord(0, &[]);
    assert_eq!(t.voice_notes()[0], 57 + 24);
}

#[test]
fn built_in_chords_follow_root_and_octave() {
    let mut t = ResonatorTuning::new();
    t.set_root(14); // D
    t.set_chord(9); // clamped to octaves + fifths
    t.set_octave(-1);
    assert_eq!(t.voice_notes(), [38, 50, 62, 74, 45, 57, 69, 81]);
    t.set_chord(1);
    assert_eq!(t.voice_notes()[1], 38 + 3);
    assert!(!t.follow());
}
