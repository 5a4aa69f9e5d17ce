use vstd::prelude::*;
use crate::effect_type::EffectType;

verus! {

/// What the chain knows of one slot: the kind of effect it holds and whether
/// it is switched on.
#[derive(Debug, Clone, Copy, PartialEq, Eq, Structural)]
pub struct SlotState {
    pub effect_type: EffectType,
    pub enabled: bool,
}

impl SlotState {
    /// The slot does work: it is on and holds an effect.
    pub open spec fn spec_is_active(self) -> bool {
        self.enabled && self.effect_type != EffectType::NoEffect
    }

    /// The effect kinds that read the chain's beat position every sample.
    pub open spec fn spec_is_tempo_synced(t: EffectType) -> bool {
        t == EffectType::Chorus || t == EffectType::Phaser || t == EffectType::Flanger
            || t == EffectType::AutoPanner || t == EffectType::Stutter || t == EffectType::Filter
    }

    /// A fresh slot: empty and switched on.
    pub fn new() -> (s: SlotState)
        ensures
            s == (SlotState { effect_type: EffectType::NoEffect, enabled: true }),
    {
        SlotState { effect_type: EffectType::NoEffect, enabled: true }
    }

    /// Whether the slot processes audio; a slot that is off or empty passes
    /// its input through.
    pub fn is_active(&self) -> (a: bool)
        ensures
            a == self.spec_is_active(),
    {
        self.enabled && self.effect_type != EffectType::NoEffect
    }

    /// Whether the chain hands this slot its beat position before processing.
    pub fn takes_beat_position(&self) -> (b: bool)
        ensures
            b == (self.enabled && Self::spec_is_tempo_synced(self.effect_type)),
            b == (self.enabled && (self.effect_type == EffectType::Chorus
                || self.effect_type == EffectType::Phaser || self.effect_type == EffectType::Flanger
                || self.effect_type == EffectType::AutoPanner || self.effect_type == EffectType::Stutter
                || self.effect_type == EffectType::Filter)),
    {
        self.enabled && match self.effect_type {
            EffectType::Chorus | EffectType::Phaser | EffectType::Flanger | EffectType::AutoPanner
            | EffectType::Stutter | EffectType::Filter => true,
            _ => false,
        }
    }

    /// Whether the chain feeds this slot the vocoder modulator signal.
    pub fn takes_modulator(&self) -> (b: bool)
        ensures
            b == (self.effect_type == EffectType::Vocoder && self.enabled),
    {
        self.effect_type == EffectType::Vocoder && self.enabled
    }

    /// Give the slot a new kind of effect. The slot is switched on exactly
    /// when the new kind is not `NoEffect`.
    pub fn set_effect_type(&mut self, effect_type: EffectType)
        ensures
            *final(self) == (SlotState {
                effect_type,
                enabled: effect_type != EffectType::NoEffect,
            }),
    {
        self.effect_type = effect_type;
        self.enabled = effect_type != EffectType::NoEffect;
    }
}

/// Some slot of `slots` does work.
pub open spec fn any_slot_active(slots: Seq<SlotState>) -> bool {
    exists|i: int| 0 <= i < slots.len() && (#[trigger] slots[i]).spec_is_active()
}

/// No slot of `slots` holds a Multi-FX.
pub open spec fn no_multifx(slots: Seq<SlotState>) -> bool {
    forall|i: int| 0 <= i < slots.len() ==> (#[trigger] slots[i]).effect_type != EffectType::MultiFx
}

/// The mathematical state of a `ChainLayout`.
pub struct ChainState {
    /// The slots, in processing order.
    pub slots: Seq<SlotState>,
    /// The cached "anything to do" flag.
    pub any_active: bool,
    /// Whether this chain may host a Multi-FX.
    pub allow_multifx: bool,
}

impl ChainState {
    /// The cached flag agrees with the slots.
    pub open spec fn cache_fresh(self) -> bool {
        self.any_active == any_slot_active(self.slots)
    }
}

/// What `ChainLayout::set_slot` did to the slot it was given.
#[derive(Debug, Clone, Copy, PartialEq, Eq, Structural)]
pub struct SlotChange {
    /// The kind the slot now holds: the requested one, or `NoEffect` when a
    /// Multi-FX was refused.
    pub installed: EffectType,
    /// The slot changed kind, so its effect must be built afresh.
    pub retyped: bool,
}

/// The structure of an effects chain: its slots in processing order, whether
/// each holds an effect and is on, the cached flag the audio loop reads to
/// skip a chain with nothing to do, and whether the chain may host a Multi-FX
/// (false for the chain inside a Multi-FX, which bounds nesting at one level).
#[derive(Debug, Clone)]
pub struct ChainLayout {
    slots: Vec<SlotState>,
    any_active: bool,
    /// Whether this chain may host an `EffectType::MultiFx` slot: true for a
    /// host's own rack, false for the chain inside a Multi-FX.
    pub allow_multifx: bool,
}

impl View for ChainLayout {
    type V = ChainState;

    closed spec fn view(&self) -> ChainState {
        ChainState { slots: self.slots@, any_active: self.any_active, allow_multifx: self.allow_multifx }
    }
}

/// The kind `set_slot` installs for a requested kind: a chain that may not
/// host a Multi-FX gets `NoEffect` in its place.
pub open spec fn spec_admitted_type(allow_multifx: bool, requested: EffectType) -> EffectType {
    if requested == EffectType::MultiFx && !allow_multifx {
        EffectType::NoEffect
    } else {
        requested
    }
}

/// A fresh slot: empty and switched on.
pub open spec fn fresh_slot() -> SlotState {
    SlotState { effect_type: EffectType::NoEffect, enabled: true }
}

/// `slots` with fresh slots appended until position `index` exists.
pub open spec fn grown_to(slots: Seq<SlotState>, index: int) -> Seq<SlotState> {
    if index < slots.len() {
        slots
    } else {
        slots + Seq::new((index + 1 - slots.len()) as nat, |i: int| fresh_slot())
    }
}

/// The slots after `set_slot(index, requested, enabled)`.
pub open spec fn slots_after_set(
    c: ChainState,
    index: int,
    requested: EffectType,
    enabled: bool,
) -> Seq<SlotState> {
    grown_to(c.slots, index).update(
        index,
        SlotState { effect_type: spec_admitted_type(c.allow_multifx, requested), enabled },
    )
}

/// The slots after `move_slot(from, to)`.
pub open spec fn slots_after_move(slots: Seq<SlotState>, from: int, to: int) -> Seq<SlotState> {
    if 0 <= from < slots.len() && 0 <= to < slots.len() && from != to {
        slots.remove(from).insert(to, slots[from])
    } else {
        slots
    }
}

/// The chain after `set_slot(index, requested, enabled)`.
pub open spec fn chain_after_set(c: ChainState, index: int, requested: EffectType, enabled: bool) -> ChainState {
    let slots = slots_after_set(c, index, requested, enabled);
    ChainState { slots, any_active: any_slot_active(slots), allow_multifx: c.allow_multifx }
}

/// The chain after restoring the first `n` slots of a patch: `set_slot` on
/// slot `i` with the kind whose index is `types[i]` and the switch
/// `enabled[i]`, for `i` from 0 up.
pub open spec fn chain_after_restore(c: ChainState, types: Seq<usize>, enabled: Seq<bool>, n: nat) -> ChainState
    decreases n,
{
    if n == 0 {
        c
    } else {
        let i = n - 1;
        chain_after_set(
            chain_after_restore(c, types, enabled, (n - 1) as nat),
            i,
            EffectType::spec_from_index(types[i] as int),
            enabled[i],
        )
    }
}

impl ChainLayout {
    /// An empty chain that may host a Multi-FX.
    pub fn new() -> (c: ChainLayout)
        ensures
            c@.slots.len() == 0,
            !c@.any_active,
            c@.allow_multifx,
            c@.cache_fresh(),
    {
        ChainLayout { slots: Vec::new(), any_active: false, allow_multifx: true }
    }

    /// A chain of `num_slots` fresh slots that may host a Multi-FX.
    pub fn with_slots(num_slots: usize) -> (c: ChainLayout)
        ensures
            c@.slots.len() == num_slots,
            forall|i: int| 0 <= i < num_slots ==> #[trigger] c@.slots[i] == (SlotState {
                effect_type: EffectType::NoEffect,
                enabled: true,
            }),
            !c@.any_active,
            c@.allow_multifx,
            c@.cache_fresh(),
    {
        let mut slots: Vec<SlotState> = Vec::with_capacity(num_slots);
        let mut i: usize = 0;
        while i < num_slots
            invariant
                i <= num_slots,
                slots@.len() == i,
                forall|j: int| 0 <= j < i ==> #[trigger] slots@[j] == (SlotState {
                    effect_type: EffectType::NoEffect,
                    enabled: true,
                }),
            decreases num_slots - i,
        {
            slots.push(SlotState::new());
            i += 1;
        }
        ChainLayout { slots, any_active: false, allow_multifx: true }
    }

    /// Allow or forbid a Multi-FX in this chain (forbidden for the chain inside
    /// a Multi-FX). The slots and the cached flag are unchanged.
    pub fn set_allow_multifx(&mut self, allow: bool)
        ensures
            final(self)@ == (ChainState { allow_multifx: allow, ..old(self)@ }),
    {
        self.allow_multifx = allow;
    }

    /// The kind `set_slot` installs when `requested` is asked for.
    pub fn admitted_type(&self, requested: EffectType) -> (t: EffectType)
        ensures
            t == spec_admitted_type(self@.allow_multifx, requested),
    {
        if requested == EffectType::MultiFx && !self.allow_multifx {
            EffectType::NoEffect
        } else {
            requested
        }
    }

    /// Recompute the cached "anything to do" flag from the slots.
    pub fn refresh_active_cache(&mut self)
        ensures
            final(self)@.slots == old(self)@.slots,
            final(self)@.allow_multifx == old(self)@.allow_multifx,
            final(self)@.cache_fresh(),
    {
        let mut any = false;
        let mut i: usize = 0;
        while i < self.slots.len()
            invariant
                i <= self.slots@.len(),
                any == exists|j: int| 0 <= j < i && (#[trigger] self.slots@[j]).spec_is_active(),
            decreases self.slots.len() - i,
        {
            if self.slots[i].is_active() {
                any = true;
            }
            i += 1;
        }
        self.any_active = any;
    }

    /// The cached flag read by the audio loop: true when (as of the last
    /// refresh) no slot is both on and holding an effect.
    pub fn is_idle(&self) -> (idle: bool)
        ensures
            idle == !self@.any_active,
            self@.cache_fresh() ==> (idle == !any_slot_active(self@.slots)),
    {
        !self.any_active
    }

    /// Append a fresh slot and return its index. A fresh slot is empty, so the
    /// cached flag is left as it is.
    pub fn add_slot(&mut self) -> (index: usize)
        ensures
            index == old(self)@.slots.len(),
            final(self)@.slots == old(self)@.slots.push(SlotState {
                effect_type: EffectType::NoEffect,
                enabled: true,
            }),
            final(self)@.any_active == old(self)@.any_active,
            final(self)@.allow_multifx == old(self)@.allow_multifx,
    {
        let index = self.slots.len();
        self.slots.push(SlotState::new());
        index
    }

    /// Remove slot `index` and refresh the cached flag; an index past the end
    /// changes nothing.
    pub fn remove_slot(&mut self, index: usize)
        ensures
            index < old(self)@.slots.len() ==> final(self)@.slots == old(self)@.slots.remove(index as int)
                && final(self)@.cache_fresh(),
            index >= old(self)@.slots.len() ==> final(self)@ == old(self)@,
            final(self)@.allow_multifx == old(self)@.allow_multifx,
    {
        if index < self.slots.len() {
            self.slots.remove(index);
            self.refresh_active_cache();
        }
    }

    /// Number of slots.
    pub fn slot_count(&self) -> (n: usize)
        ensures
            n == self@.slots.len(),
    {
        self.slots.len()
    }

    /// Slot `index`, if there is one.
    pub fn get_slot(&self, index: usize) -> (s: Option<SlotState>)
        ensures
            index < self@.slots.len() ==> s == Some(self@.slots[index as int]),
            index >= self@.slots.len() ==> s is None,
    {
        if index < self.slots.len() {
            Some(self.slots[index])
        } else {
            None
        }
    }

    /// Move the slot at `from` to position `to`, shifting the slots between;
    /// nothing happens unless both are in range and differ. The cached flag is
    /// left as it is, since the same slots remain.
    pub fn move_slot(&mut self, from: usize, to: usize)
        ensures
            final(self)@.slots == slots_after_move(old(self)@.slots, from as int, to as int),
            final(self)@.any_active == old(self)@.any_active,
            final(self)@.allow_multifx == old(self)@.allow_multifx,
    {
        if from >= self.slots.len() || to >= self.slots.len() || from == to {
            return;
        }
        let slot = self.slots.remove(from);
        self.slots.insert(to, slot);
    }

    /// Put `requested` (or `NoEffect`, where a Multi-FX is not allowed) in slot
    /// `index`, adding fresh slots until it exists, switch the slot on or off,
    /// and refresh the cached flag. Reports what was installed and whether the
    /// slot changed kind.
    pub fn set_slot(&mut self, index: usize, requested: EffectType, enabled: bool) -> (change: SlotChange)
        requires
            index < usize::MAX,
        ensures
            change.installed == spec_admitted_type(old(self)@.allow_multifx, requested),
            final(self)@.slots == slots_after_set(old(self)@, index as int, requested, enabled),
            change.retyped == (grown_to(old(self)@.slots, index as int)[index as int].effect_type
                != change.installed),
            final(self)@.cache_fresh(),
            final(self)@.allow_multifx == old(self)@.allow_multifx,
    {
        let installed = self.admitted_type(requested);
        let ghost before = self@.slots;
        let ghost allow = self.allow_multifx;
        while self.slots.len() <= index
            invariant
                self.allow_multifx == allow,
                index < usize::MAX,
                before.len() <= self.slots@.len(),
                self.slots@.len() <= (if index < before.len() { before.len() as int } else { index + 1 }),
                forall|i: int| 0 <= i < before.len() ==> #[trigger] self.slots@[i] == before[i],
                forall|i: int| before.len() <= i < self.slots@.len() ==> #[trigger] self.slots@[i] == (SlotState {
                    effect_type: EffectType::NoEffect,
                    enabled: true,
                }),
            decreases index + 1 - self.slots.len(),
        {
            self.slots.push(SlotState::new());
        }
        let mut slot = self.slots[index];
        let retyped = slot.effect_type != installed;
        if retyped {
            slot.set_effect_type(installed);
        }
        slot.enabled = enabled;
        proof {
            assert(self.slots@ =~= grown_to(before, index as int));
        }
        self.slots.set(index, slot);
        proof {
            assert(self.slots@ =~= slots_after_set(old(self)@, index as int, requested, enabled));
        }
        self.refresh_active_cache();
        SlotChange { installed, retyped }
    }

    /// Restore the slots of a patch from its parallel arrays: for each `i`
    /// below the shortest of `types`, `enabled` and `limit`, put the kind with
    /// index `types[i]` in slot `i` with switch `enabled[i]` (as `set_slot`
    /// does). Returns what happened to each restored slot, in order.
    pub fn restore_slots_from_patch(
        &mut self,
        types: &[usize],
        enabled: &[bool],
        limit: usize,
    ) -> (changes: Vec<SlotChange>)
        ensures
            ({
                let n = if types@.len() <= enabled@.len() && types@.len() <= limit {
                    types@.len()
                } else if enabled@.len() <= limit {
                    enabled@.len()
                } else {
                    limit as nat
                };
                &&& changes@.len() == n
                &&& final(self)@ == chain_after_restore(old(self)@, types@, enabled@, n)
                &&& forall|i: int|
                    0 <= i < n ==> (#[trigger] changes@[i]).installed == spec_admitted_type(
                        old(self)@.allow_multifx,
                        EffectType::spec_from_index(types@[i] as int),
                    )
            }),
    {
        let mut n = types.len();
        if enabled.len() < n {
            n = enabled.len();
        }
        if limit < n {
            n = limit;
        }
        let ghost start = self@;
        let mut changes: Vec<SlotChange> = Vec::new();
        let mut i: usize = 0;
        while i < n
            invariant
                n <= types@.len(),
                n <= enabled@.len(),
                n <= limit,
                i <= n,
                changes@.len() == i,
                self@.allow_multifx == start.allow_multifx,
                self@ == chain_after_restore(start, types@, enabled@, i as nat),
                forall|j: int|
                    0 <= j < i ==> (#[trigger] changes@[j]).installed == spec_admitted_type(
                        start.allow_multifx,
                        EffectType::spec_from_index(types@[j] as int),
                    ),
            decreases n - i,
        {
            let et = EffectType::from_index(types[i]);
            let change = self.set_slot(i, et, enabled[i]);
            changes.push(change);
            i += 1;
        }
        changes
    }

    /// Change the kind of slot `index` directly, as the slot's own
    /// `set_effect_type` does: a Multi-FX is not refused here, and the cached
    /// flag is left alone (call `refresh_active_cache` after). Returns whether
    /// the slot exists.
    pub fn retype_slot(&mut self, index: usize, effect_type: EffectType) -> (found: bool)
        ensures
            found == (index < old(self)@.slots.len()),
            found ==> final(self)@.slots == old(self)@.slots.update(
                index as int,
                SlotState { effect_type, enabled: effect_type != EffectType::NoEffect },
            ),
            !found ==> final(self)@.slots == old(self)@.slots,
            final(self)@.any_active == old(self)@.any_active,
            final(self)@.allow_multifx == old(self)@.allow_multifx,
    {
        if index < self.slots.len() {
            let mut slot = self.slots[index];
            slot.set_effect_type(effect_type);
            self.slots.set(index, slot);
            true
        } else {
            false
        }
    }

    /// Switch slot `index` on or off directly, without refreshing the cached
    /// flag (call `refresh_active_cache` after). Returns whether the slot exists.
    pub fn set_slot_enabled(&mut self, index: usize, enabled: bool) -> (found: bool)
        ensures
            found == (index < old(self)@.slots.len()),
            found ==> final(self)@.slots == old(self)@.slots.update(
                index as int,
                SlotState { effect_type: old(self)@.slots[index as int].effect_type, enabled },
            ),
            !found ==> final(self)@.slots == old(self)@.slots,
            final(self)@.any_active == old(self)@.any_active,
            final(self)@.allow_multifx == old(self)@.allow_multifx,
    {
        if index < self.slots.len() {
            let mut slot = self.slots[index];
            slot.enabled = enabled;
            self.slots.set(index, slot);
            true
        } else {
            false
        }
    }

    /// Whether some slot holds a vocoder that is on.
    pub fn has_vocoder_enabled(&self) -> (b: bool)
        ensures
            b == exists|i: int|
                0 <= i < self@.slots.len() && (#[trigger] self@.slots[i]).effect_type == EffectType::Vocoder
                    && self@.slots[i].enabled,
    {
        let mut i: usize = 0;
        while i < self.slots.len()
            invariant
                i <= self.slots@.len(),
                forall|j: int|
                    0 <= j < i ==> !((#[trigger] self.slots@[j]).effect_type == EffectType::Vocoder
                        && self.slots@[j].enabled),
            decreases self.slots.len() - i,
        {
            if self.slots[i].takes_modulator() {
                return true;
            }
            i += 1;
        }
        false
    }
}

/// Which part of a Multi-FX rack a rack parameter id addresses: 0 to 7 the
/// macros, 8 the chain selector, 9 and past the chains' gains.
#[derive(Debug, Clone, Copy, PartialEq, Eq, Structural)]
pub enum RackParam {
    Macro(usize),
    Selector,
    Gain(usize),
}

/// The rack part that parameter `pid` addresses.
pub open spec fn spec_rack_param(pid: int) -> RackParam {
    if pid <= 7 {
        RackParam::Macro(pid as usize)
    } else if pid == 8 {
        RackParam::Selector
    } else {
        RackParam::Gain((pid - 9) as usize)
    }
}

/// The rack part that parameter `pid` addresses.
pub fn rack_param(pid: usize) -> (p: RackParam)
    ensures
        p == spec_rack_param(pid as int),
        pid < 8 ==> p == RackParam::Macro(pid),
        pid == 8 ==> p == RackParam::Selector,
        pid > 8 ==> p == RackParam::Gain((pid - 9) as usize),
{
    if pid <= 7 {
        RackParam::Macro(pid)
    } else if pid == 8 {
        RackParam::Selector
    } else {
        RackParam::Gain(pid - 9)
    }
}

/// Whether chain `chain` of a rack plays at selector position `selector`
/// (`0..=127`): it plays when the selector lies in its zone `(lo, hi)`,
/// inclusive, and always when no zone is given for it.
pub open spec fn spec_rack_chain_plays(selector: u8, zones: Seq<(u8, u8)>, chain: int) -> bool {
    if 0 <= chain < zones.len() {
        zones[chain].0 <= selector && selector <= zones[chain].1
    } else {
        true
    }
}

/// Whether chain `chain` of a rack plays at selector position `selector`.
pub fn rack_chain_plays(selector: u8, zones: &[(u8, u8)], chain: usize) -> (plays: bool)
    ensures
        plays == spec_rack_chain_plays(selector, zones@, chain as int),
        chain < zones@.len() ==> (plays <==> zones@[chain as int].0 <= selector
            && selector <= zones@[chain as int].1),
        chain >= zones@.len() ==> plays,
{
    if chain < zones.len() {
        let (lo, hi) = zones[chain];
        selector >= lo && selector <= hi
    } else {
        true
    }
}

/// The kinds that take the chain's beat position are exactly the six with a
/// tempo-synced LFO or trigger: Chorus, Phaser, Flanger, AutoPanner, Stutter
/// and Filter. An enabled slot of one of them takes it; a disabled slot or any
/// other kind does not.
pub proof fn lemma_tempo_synced_kinds(s: SlotState)
    ensures
        Set::new(|t: EffectType| SlotState::spec_is_tempo_synced(t)) == set![
            EffectType::Chorus,
            EffectType::Phaser,
            EffectType::Flanger,
            EffectType::AutoPanner,
            EffectType::Stutter,
            EffectType::Filter,
        ],
        (s.enabled && SlotState::spec_is_tempo_synced(s.effect_type)) <==> (s.enabled && (s.effect_type
            == EffectType::Chorus || s.effect_type == EffectType::Phaser || s.effect_type
            == EffectType::Flanger || s.effect_type == EffectType::AutoPanner || s.effect_type
            == EffectType::Stutter || s.effect_type == EffectType::Filter)),
{
    assert(Set::new(|t: EffectType| SlotState::spec_is_tempo_synced(t)) =~= set![
        EffectType::Chorus,
        EffectType::Phaser,
        EffectType::Flanger,
        EffectType::AutoPanner,
        EffectType::Stutter,
        EffectType::Filter,
    ]);
}

/// A rack chain plays at selector position `s` exactly when `s` lies in its
/// zone `(lo, hi)` with both ends included, and always when it has no zone;
/// so a chain with the full zone `(0, 127)` plays at every position `0..=127`,
/// and a zone plays at its own two ends.
pub proof fn lemma_rack_zone_inclusive(s: u8, zones: Seq<(u8, u8)>, chain: int)
    ensures
        0 <= chain < zones.len() ==> (spec_rack_chain_plays(s, zones, chain) <==> zones[chain].0 <= s
            && s <= zones[chain].1),
        !(0 <= chain < zones.len()) ==> spec_rack_chain_plays(s, zones, chain),
        0 <= chain < zones.len() && zones[chain] == (0u8, 127u8) && s <= 127 ==> spec_rack_chain_plays(
            s,
            zones,
            chain,
        ),
        0 <= chain < zones.len() && zones[chain].0 <= zones[chain].1 ==> spec_rack_chain_plays(
            zones[chain].0,
            zones,
            chain,
        ) && spec_rack_chain_plays(zones[chain].1, zones, chain),
{
}

/// Rack parameter ids: 0 to 7 address the eight macros in order, 8 the
/// selector, and `9 + g` the gain of chain `g`.
pub proof fn lemma_rack_param_layout(m: int, g: int)
    ensures
        0 <= m < 8 ==> spec_rack_param(m) == RackParam::Macro(m as usize),
        spec_rack_param(8) == RackParam::Selector,
        0 <= g < usize::MAX - 9 ==> spec_rack_param(9 + g) == RackParam::Gain(g as usize),
{
}

/// Moving a slot keeps the same slots, only reordered.
pub proof fn lemma_move_slot_permutes(slots: Seq<SlotState>, from: int, to: int)
    ensures
        slots_after_move(slots, from, to).len() == slots.len(),
        slots_after_move(slots, from, to).to_multiset() == slots.to_multiset(),
{
    broadcast use vstd::multiset::group_multiset_axioms;

    if 0 <= from < slots.len() && 0 <= to < slots.len() && from != to {
        let r = slots.remove(from);
        vstd::seq_lib::to_multiset_remove(slots, from);
        vstd::seq_lib::to_multiset_insert(r, to, slots[from]);
        slots.to_multiset_ensures();
        assert(slots.to_multiset().contains(slots[from]));
        assert(r.to_multiset().insert(slots[from]) =~= slots.to_multiset());
        vstd::seq_lib::to_multiset_len(slots);
        vstd::seq_lib::to_multiset_len(slots_after_move(slots, from, to));
    }
}

/// Slots that do work stay the ones that do work when a slot is moved, and a
/// fresh slot does none: appending or moving a slot keeps the cached flag true.
pub proof fn lemma_cache_survives_add_and_move(c: ChainState, from: int, to: int)
    requires
        c.cache_fresh(),
    ensures
        any_slot_active(c.slots.push(fresh_slot())) == c.any_active,
        any_slot_active(slots_after_move(c.slots, from, to)) == c.any_active,
{
    let pushed = c.slots.push(fresh_slot());
    if any_slot_active(pushed) {
        let i = choose|i: int| 0 <= i < pushed.len() && (#[trigger] pushed[i]).spec_is_active();
        assert(i < c.slots.len());
        assert(c.slots[i].spec_is_active());
    }
    if any_slot_active(c.slots) {
        let i = choose|i: int| 0 <= i < c.slots.len() && (#[trigger] c.slots[i]).spec_is_active();
        assert(pushed[i] == c.slots[i]);
    }
    let m = slots_after_move(c.slots, from, to);
    lemma_move_slot_permutes(c.slots, from, to);
    if any_slot_active(m) {
        let i = choose|i: int| 0 <= i < m.len() && (#[trigger] m[i]).spec_is_active();
        vstd::seq_lib::to_multiset_contains(m, m[i]);
        m.to_multiset_ensures();
        assert(m.to_multiset().count(m[i]) > 0);
        assert(c.slots.to_multiset().count(m[i]) > 0);
        c.slots.to_multiset_ensures();
        assert(c.slots.contains(m[i]));
    }
    if any_slot_active(c.slots) {
        let i = choose|i: int| 0 <= i < c.slots.len() && (#[trigger] c.slots[i]).spec_is_active();
        c.slots.to_multiset_ensures();
        assert(c.slots.to_multiset().count(c.slots[i]) > 0);
        m.to_multiset_ensures();
        assert(m.to_multiset().count(c.slots[i]) > 0);
        assert(m.contains(c.slots[i]));
    }
}

/// A chain that may not host a Multi-FX never gains one through its own
/// operations: `set_slot` installs `NoEffect` in place of a requested
/// Multi-FX, and adding, removing or moving slots brings none in.
pub proof fn lemma_nested_chain_never_hosts_multifx(
    c: ChainState,
    index: int,
    requested: EffectType,
    enabled: bool,
    from: int,
    to: int,
    removed: int,
)
    requires
        !c.allow_multifx,
        no_multifx(c.slots),
        0 <= index,
    ensures
        no_multifx(slots_after_set(c, index, requested, enabled)),
        no_multifx(slots_after_move(c.slots, from, to)),
        no_multifx(c.slots.push(fresh_slot())),
        0 <= removed < c.slots.len() ==> no_multifx(c.slots.remove(removed)),
{
    let g = grown_to(c.slots, index);
    assert(no_multifx(g));
    let m = slots_after_move(c.slots, from, to);
    if 0 <= from < c.slots.len() && 0 <= to < c.slots.len() && from != to {
        let r = c.slots.remove(from);
        c.slots.remove_ensures(from);
        assert(no_multifx(r));
        r.insert_ensures(to, c.slots[from]);
        assert forall|i: int| 0 <= i < m.len() implies (#[trigger] m[i]).effect_type != EffectType::MultiFx by {
            if i < to {
            } else if i == to {
            } else {
                assert(m[i] == r[i - 1]);
            }
        }
    }
    let p = c.slots.push(fresh_slot());
    assert(no_multifx(p));
    if 0 <= removed < c.slots.len() {
        c.slots.remove_ensures(removed);
        let q = c.slots.remove(removed);
        assert forall|i: int| 0 <= i < q.len() implies (#[trigger] q[i]).effect_type != EffectType::MultiFx by {
            if i < removed {
            } else {
                assert(q[i] == c.slots[i + 1]);
            }
        }
    }
}

/// Restoring a patch into a chain that may not host a Multi-FX leaves it
/// without one, whatever kinds the patch names.
pub proof fn lemma_restore_keeps_nesting_bound(c: ChainState, types: Seq<usize>, enabled: Seq<bool>, n: nat)
    requires
        !c.allow_multifx,
        no_multifx(c.slots),
        n <= types.len(),
        n <= enabled.len(),
    ensures
        !chain_after_restore(c, types, enabled, n).allow_multifx,
        no_multifx(chain_after_restore(c, types, enabled, n).slots),
    decreases n,
{
    if n > 0 {
        let i = n - 1;
        let prev = chain_after_restore(c, types, enabled, (n - 1) as nat);
        lemma_restore_keeps_nesting_bound(c, types, enabled, (n - 1) as nat);
        lemma_nested_chain_never_hosts_multifx(
            prev,
            i,
            EffectType::spec_from_index(types[i] as int),
            enabled[i],
            0,
            0,
            0,
        );
    }
}

} // verus!
