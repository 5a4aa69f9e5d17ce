use phonix_fx::effect_type::EffectType;
use phonix_fx::kinds::{DelayType, DistortionType, ReverbType};
use phonix_fx::modes::{
    AutoPanMode, AutoPanWave, CompressorMode, ExpanderMode, FilterMode, LimiterMode, RingModWave, StutterMode,
};
use phonix_fx::scale::{map_generative_scale, ScaleType};
use phonix_fx::tempo::TempoDivision;

#[test]
fn test_effect_type() {
    assert_eq!(EffectType::from_index(0), EffectType::NoEffect);
    assert_eq!(EffectType::from_index(1), EffectType::Delay);
    assert_eq!(EffectType::Delay.index(), 1);
}

#[test]
fn convolution_reverb_in_effect_catalog() {
    assert!(
        EffectType::all().contains(&EffectType::ConvolutionReverb),
        "ConvolutionReverb missing from EffectType::all()"
    );
    assert_eq!(EffectType::ConvolutionReverb.display_name(), "Conv Reverb");
}

#[test]
fn generative_scale_mapping_is_faithful() {
    let all = ScaleType::all();
    for (gen_idx, want) in [
        (0usize, ScaleType::Chromatic),
        (1, ScaleType::Major),
        (2, ScaleType::Minor),
        (3, ScaleType::PentatonicMajor),
        (4, ScaleType::Blues),
        (5, ScaleType::Dorian),
        (6, ScaleType::Phrygian),
        (7, ScaleType::Lydian),
        (8, ScaleType::Mixolydian),
    ] {
        assert_eq!(all[map_generative_scale(gen_idx)], want, "gen idx {gen_idx}");
    }
    assert_eq!(all[map_generative_scale(99)], ScaleType::Major);
}

#[test]
fn test_tempo_division() {
    let div = TempoDivision::Quarter;
    let (n, d) = div.beats();
    assert_eq!(n as f32 / d as f32, 1.0);

    let beats_per_second = 120.0f32 / 60.0;
    let time = (n as f32 / d as f32) / beats_per_second;
    assert!((time - 0.5).abs() < 0.001);
}

#[test]
fn every_effect_type_round_trips_through_its_index() {
    let all = EffectType::all();
    assert_eq!(all.len(), 51);
    for (i, t) in all.iter().enumerate() {
        assert_eq!(t.index(), i);
        assert_eq!(EffectType::from_index(i), *t);
    }
    assert_eq!(EffectType::Dimension.index(), 50);
    assert_eq!(EffectType::MultiFx.index(), 45);
}

#[test]
fn out_of_range_indices_fall_back_to_the_default() {
    assert_eq!(EffectType::from_index(51), EffectType::NoEffect);
    assert_eq!(EffectType::from_index(usize::MAX), EffectType::NoEffect);
    assert_eq!(DelayType::from_index(11), DelayType::Simple);
    assert_eq!(ReverbType::from_index(99), ReverbType::Hall);
    assert_eq!(DistortionType::from_index(10), DistortionType::SoftClip);
    assert_eq!(TempoDivision::from_index(14), TempoDivision::Quarter);
    assert_eq!(CompressorMode::from_index(5), CompressorMode::Vca);
    assert_eq!(LimiterMode::from_index(3), LimiterMode::Brickwall);
    assert_eq!(ExpanderMode::from_index(7), ExpanderMode::Gate);
    assert_eq!(AutoPanMode::from_index(7), AutoPanMode::Classic);
    assert_eq!(AutoPanWave::from_index(3), AutoPanWave::Sine);
    assert_eq!(StutterMode::from_index(5), StutterMode::Stutter);
    assert_eq!(FilterMode::from_index(4), FilterMode::LowPass);
    assert_eq!(RingModWave::from_index(3), RingModWave::Sine);
}

#[test]
fn display_names_of_the_catalogues() {
    assert_eq!(EffectType::NoEffect.display_name(), "None");
    assert_eq!(EffectType::AutoPanner.display_name(), "AutoPan");
    assert_eq!(EffectType::MultiFx.display_name(), "Multi-FX");
    assert_eq!(DelayType::Simple.display_name(), "Digital");
    assert_eq!(DelayType::from_index(3).display_name(), "Multi-Tap");
    assert_eq!(ReverbType::Infinite.display_name(), "Infinite");
    assert_eq!(ReverbType::Gated.index(), 8);
    assert_eq!(DistortionType::TanhClip.display_name(), "Tanh Clip");
    assert_eq!(DistortionType::SoftKnee.index(), 8);
    assert_eq!(TempoDivision::DottedEighth.display_name(), "1/8D");
    assert_eq!(TempoDivision::TripletSixteenth.index(), 13);
}

#[test]
fn mode_names_line_up_with_from_index() {
    let names = CompressorMode::all_names();
    assert_eq!(names, &["VCA", "Opto", "FET", "Multi", "Bus"]);
    for (i, n) in names.iter().enumerate() {
        assert_eq!(CompressorMode::from_index(i).name(), *n);
    }
    assert_eq!(LimiterMode::all_names(), &["Brick", "Soft", "Max"]);
    assert_eq!(LimiterMode::from_index(2).name(), "Max");
    assert_eq!(ExpanderMode::all_names(), &["Gate", "Gentle", "Ducker"]);
    assert_eq!(ExpanderMode::from_index(2), ExpanderMode::Ducker);
    assert_eq!(
        AutoPanMode::all_names(),
        vec!["Classic", "Spin", "Bounce", "Random S&H", "Envelope", "Haas", "Trem-Pan"]
    );
    assert_eq!(AutoPanMode::from_index(6).display_name(), "Trem-Pan");
    assert_eq!(AutoPanWave::all_names(), vec!["Sine", "Triangle", "Square"]);
    assert_eq!(AutoPanWave::from_index(2), AutoPanWave::Square);
    assert_eq!(StutterMode::all_names(), vec!["Stutter", "Reverse", "Half Speed", "Scratch", "Glitch"]);
    assert_eq!(FilterMode::all_names(), vec!["Low Pass", "High Pass", "Band Pass", "Notch"]);
    assert_eq!(FilterMode::from_index(3), FilterMode::Notch);
    assert_eq!(RingModWave::all_names(), vec!["Sine", "Square", "Saw"]);
    assert_eq!(RingModWave::from_index(2), RingModWave::Saw);
}

#[test]
fn division_lengths_are_exact_fractions() {
    assert_eq!(TempoDivision::Whole.beats(), (4, 1));
    assert_eq!(TempoDivision::DottedQuarter.beats(), (3, 2));
    assert_eq!(TempoDivision::TripletQuarter.beats(), (2, 3));
    assert_eq!(TempoDivision::TripletSixteenth.beats(), (1, 6));
    // A dotted eighth lasts 3/2 of an eighth; a triplet eighth 2/3 of it.
    let (en, ed) = TempoDivision::Eighth.beats();
    let (dn, dd) = TempoDivision::DottedEighth.beats();
    let (tn, td) = TempoDivision::TripletEighth.beats();
    assert_eq!(dn * ed * 2, 3 * en * dd);
    assert_eq!(tn * ed * 3, 2 * en * td);
}

#[test]
fn scale_catalogue_lists_every_scale_once() {
    let all = ScaleType::all();
    assert_eq!(all.len(), 9);
    for (i, a) in all.iter().enumerate() {
        for b in all.iter().skip(i + 1) {
            assert_ne!(a, b);
        }
    }
    assert_eq!(map_generative_scale(1), 0);
}
