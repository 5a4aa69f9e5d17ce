//! The structural logic of the Phonix effects rack, with its contracts proved:
//! the catalogues of effect kinds and modes and their indices, the layout of
//! an effects chain (slots, the idle flag, the one-level Multi-FX nesting
//! bound), key and chord selection for the pitch effects, the per-slot
//! parameter store, ring-buffer positions and the deterministic noise
//! generators the effects seed themselves with.

use vstd::prelude::*;

pub mod chain;
pub mod effect_type;
pub mod kinds;
pub mod modes;
pub mod noise;
pub mod ring;
pub mod scale;
pub mod slot_params;
pub mod tempo;
pub mod tuning;

verus! {

} // verus!
