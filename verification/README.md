# phonix_fx

The effects rack of the Phonix synthesizer: the part of it that is decisions
over integers and enums, written in Verus with its contracts proved.

- `src/` — the verified library.
  - `effect_type`, `kinds`, `modes`, `tempo`: the catalogues (effect kinds,
    delay/reverb/distortion types, compressor/limiter/expander/auto-pan/stutter/
    filter/ring-mod modes, tempo divisions), their picker indices and labels,
    and the exact length of each tempo division.
  - `chain`: the layout of an effects chain — slots in order, the cached idle
    flag, moving and removing slots, the one-level Multi-FX nesting bound, and
    the rack's parameter and zone addressing.
  - `scale`, `tuning`: scales, key/scale selection with chord-track follow,
    harmony voice degrees, and the notes the resonator bank rings at.
  - `slot_params`: the per-slot parameter store.
  - `ring`, `noise`: ring-buffer positions for delay lines and the stutter's
    captured chunk; the xorshift noise, choir seeds, velvet taps and
    early-reflection hash.
- `app/` — the audio-rate code around the library: float parameters turned
  into the library's inputs, tempo lengths in seconds, a lock around the
  parameter store, and the per-sample chain driven by the layout.
- `tests/` — tests of the library.
