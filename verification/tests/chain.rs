use phonix_fx::chain::{rack_chain_plays, rack_param, ChainLayout, RackParam, SlotState};
use phonix_fx::effect_type::EffectType;

#[test]
fn a_fresh_chain_is_idle() {
    let c = ChainLayout::with_slots(8);
    assert_eq!(c.slot_count(), 8);
    assert!(c.is_idle());
    assert!(c.allow_multifx);
    assert_eq!(
        c.get_slot(3),
        Some(SlotState { effect_type: EffectType::NoEffect, enabled: true })
    );
    assert_eq!(c.get_slot(8), None);
    assert!(ChainLayout::new().is_idle());
}

#[test]
fn set_slot_grows_the_chain_and_wakes_it() {
    let mut c = ChainLayout::new();
    let change = c.set_slot(2, EffectType::Delay, true);
    assert_eq!(change.installed, EffectType::Delay);
    assert!(change.retyped);
    assert_eq!(c.slot_count(), 3);
    assert!(!c.is_idle());
    assert_eq!(c.get_slot(0).unwrap().effect_type, EffectType::NoEffect);
    // Same type again: nothing to rebuild.
    let again = c.set_slot(2, EffectType::Delay, false);
    assert!(!again.retyped);
    assert!(c.is_idle());
}

#[test]
fn a_nested_chain_refuses_a_multifx() {
    let mut inner = ChainLayout::with_slots(4);
    inner.set_allow_multifx(false);
    assert!(!inner.allow_multifx);
    let change = inner.set_slot(0, EffectType::MultiFx, true);
    assert_eq!(change.installed, EffectType::NoEffect);
    assert!(!change.retyped);
    assert_eq!(inner.get_slot(0).unwrap().effect_type, EffectType::NoEffect);
    assert!(inner.is_idle());

    let mut outer = ChainLayout::with_slots(1);
    let change = outer.set_slot(0, EffectType::MultiFx, true);
    assert_eq!(change.installed, EffectType::MultiFx);
    assert!(!outer.is_idle());
}

#[test]
fn remove_and_move_keep_the_slots_in_order() {
    let mut c = ChainLayout::new();
    c.set_slot(0, EffectType::Delay, true);
    c.set_slot(1, EffectType::Reverb, true);
    c.set_slot(2, EffectType::Chorus, true);
    c.move_slot(0, 2);
    assert_eq!(c.get_slot(0).unwrap().effect_type, EffectType::Reverb);
    assert_eq!(c.get_slot(1).unwrap().effect_type, EffectType::Chorus);
    assert_eq!(c.get_slot(2).unwrap().effect_type, EffectType::Delay);
    c.move_slot(1, 5);
    assert_eq!(c.get_slot(1).unwrap().effect_type, EffectType::Chorus);
    c.remove_slot(1);
    assert_eq!(c.slot_count(), 2);
    assert_eq!(c.get_slot(1).unwrap().effect_type, EffectType::Delay);
    c.remove_slot(9);
    assert_eq!(c.slot_count(), 2);
    c.remove_slot(0);
    c.remove_slot(0);
    assert!(c.is_idle());
    assert_eq!(c.add_slot(), 0);
    assert!(c.is_idle());
}

#[test]
fn direct_writes_wait_for_a_refresh() {
    let mut c = ChainLayout::with_slots(4);
    assert!(c.retype_slot(0, EffectType::Delay));
    assert!(c.get_slot(0).unwrap().enabled);
    assert!(c.is_idle(), "a direct write leaves the cached flag alone");
    c.refresh_active_cache();
    assert!(!c.is_idle());
    assert!(c.set_slot_enabled(0, false));
    c.refresh_active_cache();
    assert!(c.is_idle());
    assert!(!c.set_slot_enabled(4, true));
    assert!(c.retype_slot(1, EffectType::NoEffect));
    assert!(!c.get_slot(1).unwrap().enabled);
}

#[test]
fn vocoder_and_beat_routing() {
    let mut c = ChainLayout::with_slots(2);
    assert!(!c.has_vocoder_enabled());
    c.set_slot(1, EffectType::Vocoder, true);
    assert!(c.has_vocoder_enabled());
    c.set_slot(1, EffectType::Vocoder, false);
    assert!(!c.has_vocoder_enabled());
    let s = SlotState { effect_type: EffectType::Phaser, enabled: true };
    assert!(s.takes_beat_position());
    assert!(s.is_active());
    let r = SlotState { effect_type: EffectType::Reverb, enabled: true };
    assert!(!r.takes_beat_position());
    let off = SlotState { effect_type: EffectType::Stutter, enabled: false };
    assert!(!off.takes_beat_position());
    assert!(!off.is_active());
}

#[test]
fn rack_parameters_and_zones() {
    assert_eq!(rack_param(0), RackParam::Macro(0));
    assert_eq!(rack_param(7), RackParam::Macro(7));
    assert_eq!(rack_param(8), RackParam::Selector);
    assert_eq!(rack_param(9), RackParam::Gain(0));
    assert_eq!(rack_param(12), RackParam::Gain(3));
    let zones = [(0u8, 127u8), (64, 127)];
    assert!(rack_chain_plays(100, &zones, 0));
    assert!(rack_chain_plays(100, &zones, 1));
    assert!(rack_chain_plays(0, &zones, 0));
    assert!(!rack_chain_plays(0, &zones, 1));
    assert!(rack_chain_plays(0, &zones, 2));
}

#[test]
fn restoring_a_patch_sets_each_slot_in_turn() {
    let mut c = ChainLayout::with_slots(1);
    let types = [1usize, 0, 45, 2];
    let enabled = [true, true, false, true];
    let changes = c.restore_slots_from_patch(&types, &enabled, 3);
    assert_eq!(changes.len(), 3);
    assert_eq!(c.slot_count(), 3);
    assert_eq!(changes[0].installed, EffectType::Delay);
    assert!(changes[0].retyped);
    assert_eq!(changes[1].installed, EffectType::NoEffect);
    assert!(!changes[1].retyped);
    assert_eq!(changes[2].installed, EffectType::MultiFx);
    assert_eq!(
        c.get_slot(2),
        Some(SlotState { effect_type: EffectType::MultiFx, enabled: false })
    );
    assert!(!c.is_idle());

    let mut inner = ChainLayout::with_slots(4);
    inner.set_allow_multifx(false);
    let changes = inner.restore_slots_from_patch(&[45, 99], &[true, true], 8);
    assert_eq!(changes.len(), 2);
    assert_eq!(changes[0].installed, EffectType::NoEffect);
    assert_eq!(changes[1].installed, EffectType::NoEffect);
    assert!(inner.is_idle());
}
