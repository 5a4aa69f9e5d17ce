use vstd::prelude::*;

verus! {

/// Slots inside one Multi-FX. Small on purpose: it is a compact multi-stage
/// insert, not a second full rack.
pub const MULTIFX_SLOTS: usize = 4;

/// The kinds of effect a slot can hold. The index of a kind is its position in
/// `EffectType::all()`, and saved sessions store that index, so new kinds are
/// only ever appended.
#[derive(Debug, Clone, Copy, PartialEq, Eq, Hash, Structural)]
pub enum EffectType {
    /// An empty slot: audio passes through unchanged. The picker shows it as "None".
    NoEffect,
    Delay,
    Reverb,
    Chorus,
    Phaser,
    Flanger,
    Distortion,
    Vocoder,
    Compressor,
    Limiter,
    Expander,
    AutoPanner,
    Stutter,
    Filter,
    RingMod,
    LoFi,
    StereoImager,
    Choir,
    Maximizer,
    Spatializer3D,
    ParametricEq,
    Doppler,
    TransientShaper,
    GranularFreezer,
    SpectralFreeze,
    ResonatorBank,
    AutoWah,
    TapeStop,
    /// Lookahead brick-wall limiter with true-peak detection, for the end of
    /// the master chain: the output never exceeds the user-set ceiling.
    BrickwallLimiter,
    /// Visual-only ITU-R BS.1770 loudness meter (momentary / short-term /
    /// integrated). Audio passes through unchanged.
    LufsMeter,
    /// 4-band parametric EQ whose band gains follow an envelope on the same band.
    DynamicEq,
    /// Mid/Side EQ: an independent 4-band parametric on M and on S.
    MidSideEq,
    /// 3-band multiband compressor (LR4 split at 200 Hz and 2 kHz by default).
    MultibandComp3,
    /// 32-band log-spaced spectrum analyser. Display-only.
    SpectrumAnalyzer,
    /// Reads its own loudness and spectrum measurements and proposes corrective
    /// gain and EQ moves for a target slot.
    MasterAssistant,
    /// FFT convolution reverb over the bundled impulse responses.
    ConvolutionReverb,
    /// Frequency-slotting sidechain duck: attenuates only a low band of the input
    /// under a sidechain key envelope.
    MultibandDucker,
    /// Velvet-noise side-injection section widener (mono-invariant).
    VelvetDecorrelator,
    /// Slow tape-wow pitch drift of a few cents.
    AnalogDrift,
    /// 8-tap stereo early reflections with a seed-perturbed tap pattern.
    EarlyReflections,
    /// Frequency-split mid/side widener: the side above the crossover is scaled
    /// by the width.
    MidSideWiden,
    /// Crossover Haas widener: lows stay centred, highs are delayed on R.
    HaasSplit,
    /// Real-time pitch correction toward the nearest note of a key/scale.
    Retune,
    /// Diatonic harmonizer: up to 3 pitch-shifted voices at scale-degree intervals.
    Harmony,
    /// Tempo-synced stereo step VCA (trance gate).
    TranceGate,
    /// A rack inside a rack: this slot holds its own short chain of effects.
    /// 
    /// Exactly one level deep: a nested chain refuses to host another Multi-FX
    /// (see `ChainLayout::admitted_type`), because unbounded nesting turns a
    /// per-sample chain walk into unbounded recursion on the audio thread.
    MultiFx,
    /// BBD ensemble chorus (3-phase string-machine widener).
    Ensemble,
    /// Four-tap spring reverb.
    SpringTank,
    /// Cinematic plate hall reverb.
    CinemaPlate,
    /// Schroeder string-machine reverb.
    SolinaVerb,
    /// Stereo BBD dimension chorus.
    Dimension,
}

pub open spec fn effect_type_at(i: int) -> EffectType {
    if i == 1 {
        EffectType::Delay
    } else if i == 2 {
        EffectType::Reverb
    } else if i == 3 {
        EffectType::Chorus
    } else if i == 4 {
        EffectType::Phaser
    } else if i == 5 {
        EffectType::Flanger
    } else if i == 6 {
        EffectType::Distortion
    } else if i == 7 {
        EffectType::Vocoder
    } else if i == 8 {
        EffectType::Compressor
    } else if i == 9 {
        EffectType::Limiter
    } else if i == 10 {
        EffectType::Expander
    } else if i == 11 {
        EffectType::AutoPanner
    } else if i == 12 {
        EffectType::Stutter
    } else if i == 13 {
        EffectType::Filter
    } else if i == 14 {
        EffectType::RingMod
    } else if i == 15 {
        EffectType::LoFi
    } else if i == 16 {
        EffectType::StereoImager
    } else if i == 17 {
        EffectType::Choir
    } else if i == 18 {
        EffectType::Maximizer
    } else if i == 19 {
        EffectType::Spatializer3D
    } else if i == 20 {
        EffectType::ParametricEq
    } else if i == 21 {
        EffectType::Doppler
    } else if i == 22 {
        EffectType::TransientShaper
    } else if i == 23 {
        EffectType::GranularFreezer
    } else if i == 24 {
        EffectType::SpectralFreeze
    } else if i == 25 {
        EffectType::ResonatorBank
    } else if i == 26 {
        EffectType::AutoWah
    } else if i == 27 {
        EffectType::TapeStop
    } else if i == 28 {
        EffectType::BrickwallLimiter
    } else if i == 29 {
        EffectType::LufsMeter
    } else if i == 30 {
        EffectType::DynamicEq
    } else if i == 31 {
        EffectType::MidSideEq
    } else if i == 32 {
        EffectType::MultibandComp3
    } else if i == 33 {
        EffectType::SpectrumAnalyzer
    } else if i == 34 {
        EffectType::MasterAssistant
    } else if i == 35 {
        EffectType::ConvolutionReverb
    } else if i == 36 {
        EffectType::MultibandDucker
    } else if i == 37 {
        EffectType::VelvetDecorrelator
    } else if i == 38 {
        EffectType::AnalogDrift
    } else if i == 39 {
        EffectType::EarlyReflections
    } else if i == 40 {
        EffectType::MidSideWiden
    } else if i == 41 {
        EffectType::HaasSplit
    } else if i == 42 {
        EffectType::Retune
    } else if i == 43 {
        EffectType::Harmony
    } else if i == 44 {
        EffectType::TranceGate
    } else if i == 45 {
        EffectType::MultiFx
    } else if i == 46 {
        EffectType::Ensemble
    } else if i == 47 {
        EffectType::SpringTank
    } else if i == 48 {
        EffectType::CinemaPlate
    } else if i == 49 {
        EffectType::SolinaVerb
    } else if i == 50 {
        EffectType::Dimension
    } else {
        EffectType::NoEffect
    }
}

impl EffectType {
    /// The catalogue in picker order: the effect type at position `i` is the one that
    /// index `i` selects.
    pub open spec fn catalog() -> Seq<EffectType> {
        Seq::new(51, |i: int| effect_type_at(i))
    }

    /// What `from_index` gives: the catalogue entry, or `NoEffect` past its end.
    pub open spec fn spec_from_index(i: int) -> EffectType {
        if 0 <= i < 51 {
            Self::catalog()[i]
        } else {
            EffectType::NoEffect
        }
    }

    /// The position of a effect type in the catalogue.
    pub open spec fn spec_index(self) -> int {
        match self {
            EffectType::NoEffect => 0,
            EffectType::Delay => 1,
            EffectType::Reverb => 2,
            EffectType::Chorus => 3,
            EffectType::Phaser => 4,
            EffectType::Flanger => 5,
            EffectType::Distortion => 6,
            EffectType::Vocoder => 7,
            EffectType::Compressor => 8,
            EffectType::Limiter => 9,
            EffectType::Expander => 10,
            EffectType::AutoPanner => 11,
            EffectType::Stutter => 12,
            EffectType::Filter => 13,
            EffectType::RingMod => 14,
            EffectType::LoFi => 15,
            EffectType::StereoImager => 16,
            EffectType::Choir => 17,
            EffectType::Maximizer => 18,
            EffectType::Spatializer3D => 19,
            EffectType::ParametricEq => 20,
            EffectType::Doppler => 21,
            EffectType::TransientShaper => 22,
            EffectType::GranularFreezer => 23,
            EffectType::SpectralFreeze => 24,
            EffectType::ResonatorBank => 25,
            EffectType::AutoWah => 26,
            EffectType::TapeStop => 27,
            EffectType::BrickwallLimiter => 28,
            EffectType::LufsMeter => 29,
            EffectType::DynamicEq => 30,
            EffectType::MidSideEq => 31,
            EffectType::MultibandComp3 => 32,
            EffectType::SpectrumAnalyzer => 33,
            EffectType::MasterAssistant => 34,
            EffectType::ConvolutionReverb => 35,
            EffectType::MultibandDucker => 36,
            EffectType::VelvetDecorrelator => 37,
            EffectType::AnalogDrift => 38,
            EffectType::EarlyReflections => 39,
            EffectType::MidSideWiden => 40,
            EffectType::HaasSplit => 41,
            EffectType::Retune => 42,
            EffectType::Harmony => 43,
            EffectType::TranceGate => 44,
            EffectType::MultiFx => 45,
            EffectType::Ensemble => 46,
            EffectType::SpringTank => 47,
            EffectType::CinemaPlate => 48,
            EffectType::SolinaVerb => 49,
            EffectType::Dimension => 50,
        }
    }

    /// The label the picker shows for a effect type.
    pub open spec fn spec_display_name(self) -> Seq<char> {
        match self {
            EffectType::NoEffect => "None"@,
            EffectType::Delay => "Delay"@,
            EffectType::Reverb => "Reverb"@,
            EffectType::Chorus => "Chorus"@,
            EffectType::Phaser => "Phaser"@,
            EffectType::Flanger => "Flanger"@,
            EffectType::Distortion => "Distortion"@,
            EffectType::Vocoder => "Vocoder"@,
            EffectType::Compressor => "Compressor"@,
            EffectType::Limiter => "Limiter"@,
            EffectType::Expander => "Expander"@,
            EffectType::AutoPanner => "AutoPan"@,
            EffectType::Stutter => "Stutter"@,
            EffectType::Filter => "Filter"@,
            EffectType::RingMod => "Ring Mod"@,
            EffectType::LoFi => "Lo-Fi"@,
            EffectType::StereoImager => "Stereo Img"@,
            EffectType::Choir => "Choir"@,
            EffectType::Maximizer => "Maximizer"@,
            EffectType::Spatializer3D => "Spatial 3D"@,
            EffectType::ParametricEq => "Param EQ"@,
            EffectType::Doppler => "Doppler"@,
            EffectType::TransientShaper => "Trans Shap"@,
            EffectType::GranularFreezer => "Granular"@,
            EffectType::SpectralFreeze => "Spec Freeze"@,
            EffectType::ResonatorBank => "Resonator"@,
            EffectType::AutoWah => "Auto Wah"@,
            EffectType::TapeStop => "Tape Stop"@,
            EffectType::BrickwallLimiter => "Brickwall"@,
            EffectType::LufsMeter => "LUFS Meter"@,
            EffectType::DynamicEq => "Dyn EQ"@,
            EffectType::MidSideEq => "M/S EQ"@,
            EffectType::MultibandComp3 => "MB Comp"@,
            EffectType::SpectrumAnalyzer => "Spectrum"@,
            EffectType::MasterAssistant => "Master Asst"@,
            EffectType::ConvolutionReverb => "Conv Reverb"@,
            EffectType::MultibandDucker => "MB Ducker"@,
            EffectType::VelvetDecorrelator => "Velvet Wide"@,
            EffectType::AnalogDrift => "Drift"@,
            EffectType::EarlyReflections => "Early Refl"@,
            EffectType::MidSideWiden => "M/S Widen"@,
            EffectType::HaasSplit => "Haas Split"@,
            EffectType::Retune => "Retune"@,
            EffectType::Harmony => "Harmonizer"@,
            EffectType::TranceGate => "Trance Gate"@,
            EffectType::MultiFx => "Multi-FX"@,
            EffectType::Ensemble => "Ensemble"@,
            EffectType::SpringTank => "Spring Tank"@,
            EffectType::CinemaPlate => "Cinema Plate"@,
            EffectType::SolinaVerb => "Solina Verb"@,
            EffectType::Dimension => "Dimension"@,
        }
    }

    /// Every effect type sits at its own index, and each index below 51 holds the
    /// effect type whose index it is.
    pub proof fn lemma_catalog_positions()
        ensures
            Self::catalog().len() == 51,
            forall|t: EffectType|
                0 <= #[trigger] t.spec_index() < 51 && Self::catalog()[t.spec_index()] == t,
            forall|i: int| 0 <= i < 51 ==> (#[trigger] Self::catalog()[i]).spec_index() == i,
    {
    }

    /// Turning a effect type into its index and back gives the same effect type.
    pub proof fn lemma_index_round_trip(t: EffectType)
        ensures
            0 <= t.spec_index() < 51,
            Self::spec_from_index(t.spec_index()) == t,
            Self::catalog().contains(t),
    {
        Self::lemma_catalog_positions();
        assert(Self::catalog()[t.spec_index()] == t);
    }

    /// Every index below 51 selects a effect type whose index is that index again,
    /// so no two positions of the catalogue hold the same effect type.
    pub proof fn lemma_from_index_round_trip(i: int)
        requires
            0 <= i < 51,
        ensures
            Self::spec_from_index(i).spec_index() == i,
            forall|j: int| 0 <= j < 51 && j != i ==> Self::catalog()[j] != Self::catalog()[i],
    {
        Self::lemma_catalog_positions();
        assert forall|j: int| 0 <= j < 51 && j != i implies Self::catalog()[j] != Self::catalog()[i] by {
            assert(Self::catalog()[j].spec_index() == j);
            assert(Self::catalog()[i].spec_index() == i);
        }
    }

    /// The effect types in picker order, as listed: NoEffect, Delay, Reverb, Chorus, Phaser, Flanger, Distortion, Vocoder, Compressor, Limiter, Expander, AutoPanner, Stutter, Filter, RingMod, LoFi, StereoImager, Choir, Maximizer, Spatializer3D, ParametricEq, Doppler, TransientShaper, GranularFreezer, SpectralFreeze, ResonatorBank, AutoWah, TapeStop, BrickwallLimiter, LufsMeter, DynamicEq, MidSideEq, MultibandComp3, SpectrumAnalyzer, MasterAssistant, ConvolutionReverb, MultibandDucker, VelvetDecorrelator, AnalogDrift, EarlyReflections, MidSideWiden, HaasSplit, Retune, Harmony, TranceGate, MultiFx, Ensemble, SpringTank, CinemaPlate, SolinaVerb, Dimension;
    /// with these labels; and every index outside the list selects `NoEffect`.
    pub proof fn lemma_catalog_contents()
        ensures
            Self::catalog() == seq![EffectType::NoEffect, EffectType::Delay, EffectType::Reverb, EffectType::Chorus, EffectType::Phaser, EffectType::Flanger, EffectType::Distortion, EffectType::Vocoder, EffectType::Compressor, EffectType::Limiter, EffectType::Expander, EffectType::AutoPanner, EffectType::Stutter, EffectType::Filter, EffectType::RingMod, EffectType::LoFi, EffectType::StereoImager, EffectType::Choir, EffectType::Maximizer, EffectType::Spatializer3D, EffectType::ParametricEq, EffectType::Doppler, EffectType::TransientShaper, EffectType::GranularFreezer, EffectType::SpectralFreeze, EffectType::ResonatorBank, EffectType::AutoWah, EffectType::TapeStop, EffectType::BrickwallLimiter, EffectType::LufsMeter, EffectType::DynamicEq, EffectType::MidSideEq, EffectType::MultibandComp3, EffectType::SpectrumAnalyzer, EffectType::MasterAssistant, EffectType::ConvolutionReverb, EffectType::MultibandDucker, EffectType::VelvetDecorrelator, EffectType::AnalogDrift, EffectType::EarlyReflections, EffectType::MidSideWiden, EffectType::HaasSplit, EffectType::Retune, EffectType::Harmony, EffectType::TranceGate, EffectType::MultiFx, EffectType::Ensemble, EffectType::SpringTank, EffectType::CinemaPlate, EffectType::SolinaVerb, EffectType::Dimension],
            Seq::new(51, |i: int| Self::catalog()[i].spec_display_name()) == seq!["None"@, "Delay"@, "Reverb"@, "Chorus"@, "Phaser"@, "Flanger"@, "Distortion"@, "Vocoder"@, "Compressor"@, "Limiter"@, "Expander"@, "AutoPan"@, "Stutter"@, "Filter"@, "Ring Mod"@, "Lo-Fi"@, "Stereo Img"@, "Choir"@, "Maximizer"@, "Spatial 3D"@, "Param EQ"@, "Doppler"@, "Trans Shap"@, "Granular"@, "Spec Freeze"@, "Resonator"@, "Auto Wah"@, "Tape Stop"@, "Brickwall"@, "LUFS Meter"@, "Dyn EQ"@, "M/S EQ"@, "MB Comp"@, "Spectrum"@, "Master Asst"@, "Conv Reverb"@, "MB Ducker"@, "Velvet Wide"@, "Drift"@, "Early Refl"@, "M/S Widen"@, "Haas Split"@, "Retune"@, "Harmonizer"@, "Trance Gate"@, "Multi-FX"@, "Ensemble"@, "Spring Tank"@, "Cinema Plate"@, "Solina Verb"@, "Dimension"@],
            forall|i: int| !(0 <= i < 51) ==> #[trigger] Self::spec_from_index(i) == EffectType::NoEffect,
    {
        assert(Self::catalog() =~= seq![EffectType::NoEffect, EffectType::Delay, EffectType::Reverb, EffectType::Chorus, EffectType::Phaser, EffectType::Flanger, EffectType::Distortion, EffectType::Vocoder, EffectType::Compressor, EffectType::Limiter, EffectType::Expander, EffectType::AutoPanner, EffectType::Stutter, EffectType::Filter, EffectType::RingMod, EffectType::LoFi, EffectType::StereoImager, EffectType::Choir, EffectType::Maximizer, EffectType::Spatializer3D, EffectType::ParametricEq, EffectType::Doppler, EffectType::TransientShaper, EffectType::GranularFreezer, EffectType::SpectralFreeze, EffectType::ResonatorBank, EffectType::AutoWah, EffectType::TapeStop, EffectType::BrickwallLimiter, EffectType::LufsMeter, EffectType::DynamicEq, EffectType::MidSideEq, EffectType::MultibandComp3, EffectType::SpectrumAnalyzer, EffectType::MasterAssistant, EffectType::ConvolutionReverb, EffectType::MultibandDucker, EffectType::VelvetDecorrelator, EffectType::AnalogDrift, EffectType::EarlyReflections, EffectType::MidSideWiden, EffectType::HaasSplit, EffectType::Retune, EffectType::Harmony, EffectType::TranceGate, EffectType::MultiFx, EffectType::Ensemble, EffectType::SpringTank, EffectType::CinemaPlate, EffectType::SolinaVerb, EffectType::Dimension]);
        assert(Seq::new(51, |i: int| Self::catalog()[i].spec_display_name()) =~= seq!["None"@, "Delay"@, "Reverb"@, "Chorus"@, "Phaser"@, "Flanger"@, "Distortion"@, "Vocoder"@, "Compressor"@, "Limiter"@, "Expander"@, "AutoPan"@, "Stutter"@, "Filter"@, "Ring Mod"@, "Lo-Fi"@, "Stereo Img"@, "Choir"@, "Maximizer"@, "Spatial 3D"@, "Param EQ"@, "Doppler"@, "Trans Shap"@, "Granular"@, "Spec Freeze"@, "Resonator"@, "Auto Wah"@, "Tape Stop"@, "Brickwall"@, "LUFS Meter"@, "Dyn EQ"@, "M/S EQ"@, "MB Comp"@, "Spectrum"@, "Master Asst"@, "Conv Reverb"@, "MB Ducker"@, "Velvet Wide"@, "Drift"@, "Early Refl"@, "M/S Widen"@, "Haas Split"@, "Retune"@, "Harmonizer"@, "Trance Gate"@, "Multi-FX"@, "Ensemble"@, "Spring Tank"@, "Cinema Plate"@, "Solina Verb"@, "Dimension"@]);
    }

    /// The label the picker shows for this effect type.
    pub fn display_name(&self) -> (name: &'static str)
        ensures
            name@ == self.spec_display_name(),
    {
        match self {
            EffectType::NoEffect => "None",
            EffectType::Delay => "Delay",
            EffectType::Reverb => "Reverb",
            EffectType::Chorus => "Chorus",
            EffectType::Phaser => "Phaser",
            EffectType::Flanger => "Flanger",
            EffectType::Distortion => "Distortion",
            EffectType::Vocoder => "Vocoder",
            EffectType::Compressor => "Compressor",
            EffectType::Limiter => "Limiter",
            EffectType::Expander => "Expander",
            EffectType::AutoPanner => "AutoPan",
            EffectType::Stutter => "Stutter",
            EffectType::Filter => "Filter",
            EffectType::RingMod => "Ring Mod",
            EffectType::LoFi => "Lo-Fi",
            EffectType::StereoImager => "Stereo Img",
            EffectType::Choir => "Choir",
            EffectType::Maximizer => "Maximizer",
            EffectType::Spatializer3D => "Spatial 3D",
            EffectType::ParametricEq => "Param EQ",
            EffectType::Doppler => "Doppler",
            EffectType::TransientShaper => "Trans Shap",
            EffectType::GranularFreezer => "Granular",
            EffectType::SpectralFreeze => "Spec Freeze",
            EffectType::ResonatorBank => "Resonator",
            EffectType::AutoWah => "Auto Wah",
            EffectType::TapeStop => "Tape Stop",
            EffectType::BrickwallLimiter => "Brickwall",
            EffectType::LufsMeter => "LUFS Meter",
            EffectType::DynamicEq => "Dyn EQ",
            EffectType::MidSideEq => "M/S EQ",
            EffectType::MultibandComp3 => "MB Comp",
            EffectType::SpectrumAnalyzer => "Spectrum",
            EffectType::MasterAssistant => "Master Asst",
            EffectType::ConvolutionReverb => "Conv Reverb",
            EffectType::MultibandDucker => "MB Ducker",
            EffectType::VelvetDecorrelator => "Velvet Wide",
            EffectType::AnalogDrift => "Drift",
            EffectType::EarlyReflections => "Early Refl",
            EffectType::MidSideWiden => "M/S Widen",
            EffectType::HaasSplit => "Haas Split",
            EffectType::Retune => "Retune",
            EffectType::Harmony => "Harmonizer",
            EffectType::TranceGate => "Trance Gate",
            EffectType::MultiFx => "Multi-FX",
            EffectType::Ensemble => "Ensemble",
            EffectType::SpringTank => "Spring Tank",
            EffectType::CinemaPlate => "Cinema Plate",
            EffectType::SolinaVerb => "Solina Verb",
            EffectType::Dimension => "Dimension",
        }
    }

    /// Every effect type, in picker order.
    pub fn all() -> (all: &'static [EffectType])
        ensures
            all@ == Self::catalog(),
    {
        let all: &'static [EffectType] = &[
            EffectType::NoEffect,
            EffectType::Delay,
            EffectType::Reverb,
            EffectType::Chorus,
            EffectType::Phaser,
            EffectType::Flanger,
            EffectType::Distortion,
            EffectType::Vocoder,
            EffectType::Compressor,
            EffectType::Limiter,
            EffectType::Expander,
            EffectType::AutoPanner,
            EffectType::Stutter,
            EffectType::Filter,
            EffectType::RingMod,
            EffectType::LoFi,
            EffectType::StereoImager,
            EffectType::Choir,
            EffectType::Maximizer,
            EffectType::Spatializer3D,
            EffectType::ParametricEq,
            EffectType::Doppler,
            EffectType::TransientShaper,
            EffectType::GranularFreezer,
            EffectType::SpectralFreeze,
            EffectType::ResonatorBank,
            EffectType::AutoWah,
            EffectType::TapeStop,
            EffectType::BrickwallLimiter,
            EffectType::LufsMeter,
            EffectType::DynamicEq,
            EffectType::MidSideEq,
            EffectType::MultibandComp3,
            EffectType::SpectrumAnalyzer,
            EffectType::MasterAssistant,
            EffectType::ConvolutionReverb,
            EffectType::MultibandDucker,
            EffectType::VelvetDecorrelator,
            EffectType::AnalogDrift,
            EffectType::EarlyReflections,
            EffectType::MidSideWiden,
            EffectType::HaasSplit,
            EffectType::Retune,
            EffectType::Harmony,
            EffectType::TranceGate,
            EffectType::MultiFx,
            EffectType::Ensemble,
            EffectType::SpringTank,
            EffectType::CinemaPlate,
            EffectType::SolinaVerb,
            EffectType::Dimension,
        ];
        assert(all@ =~= Self::catalog());
        all
    }

    /// The effect type at picker index `index`; `NoEffect` past the end of the catalogue.
    pub fn from_index(index: usize) -> (t: EffectType)
        ensures
            t == Self::spec_from_index(index as int),
    {
        let all = Self::all();
        if index < all.len() {
            all[index]
        } else {
            EffectType::NoEffect
        }
    }

    /// The picker index of this effect type: its first position in `all()`.
    pub fn index(&self) -> (i: usize)
        ensures
            i as int == self.spec_index(),
            Self::catalog()[i as int] == *self,
    {
        let all = Self::all();
        proof {
            Self::lemma_catalog_positions();
            assert(all@[self.spec_index()] == *self);
        }
        let mut i: usize = 0;
        while i < all.len()
            invariant
                all@ == Self::catalog(),
                all@.len() == 51,
                i <= all@.len(),
                all@[self.spec_index()] == *self,
                0 <= self.spec_index() < 51,
                forall|k: int| 0 <= k < 51 ==> (#[trigger] all@[k]).spec_index() == k,
                forall|j: int| 0 <= j < i ==> all@[j] != *self,
            decreases all.len() - i,
        {
            if all[i] == *self {
                return i;
            }
            i += 1;
        }
        0
    }
}

} // verus!
