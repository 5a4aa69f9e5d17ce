use vstd::prelude::*;
use crate::scale::{ScaleType, SCALE_COUNT};

verus! {

/// Pitch class of a semitone count: `v` modulo 12, always in `0..12`.
pub fn pitch_class(v: i32) -> (r: i32)
    ensures
        0 <= r < 12,
        r as int == (v as int) % 12,
{
    let m = v % 12;
    if m < 0 {
        m + 12
    } else {
        m
    }
}

} // verus!

verus! {

/// The key and scale a Retune or Harmony effect corrects toward, and whether
/// they come from the user's own settings or follow the song's chord track.
///
/// In follow mode the chord-track broadcast (`set_song_key`) decides the key
/// and scale and the manual setters are inert; in manual mode it is the other
/// way round.
#[derive(Debug)]
pub struct KeySelection {
    key: u8,
    scale_idx: usize,
    follow_key: bool,
}

impl View for KeySelection {
    /// `(key as a pitch class, scale index, follow mode)`.
    type V = (int, int, bool);

    closed spec fn view(&self) -> (int, int, bool) {
        (self.key as int, self.scale_idx as int, self.follow_key)
    }
}

impl KeySelection {
    #[verifier::type_invariant]
    spec fn inv(self) -> bool {
        &&& self.key < 12
        &&& self.scale_idx < SCALE_COUNT
    }

    /// Key C, the first scale, manual mode.
    pub fn new() -> (s: KeySelection)
        ensures
            s@ == (0int, 0int, false),
    {
        KeySelection { key: 0, scale_idx: 0, follow_key: false }
    }

    /// The key as a pitch class, `0..12` (C = 0).
    pub fn key(&self) -> (k: u8)
        ensures
            k as int == self@.0,
            k < 12,
    {
        proof { use_type_invariant(self); }
        self.key
    }

    /// The `ScaleType::all()` index of the scale, below `SCALE_COUNT`.
    pub fn scale_idx(&self) -> (i: usize)
        ensures
            i as int == self@.1,
            i < SCALE_COUNT,
    {
        proof { use_type_invariant(self); }
        self.scale_idx
    }

    /// Whether the chord-track key is followed.
    pub fn follow_key(&self) -> (f: bool)
        ensures
            f == self@.2,
    {
        self.follow_key
    }

    /// The scale in force.
    pub fn scale(&self) -> (s: ScaleType)
        ensures
            s == ScaleType::catalog()[self@.1],
    {
        proof { use_type_invariant(self); }
        ScaleType::at_clamped(self.scale_idx)
    }

    /// The user's key, in semitones from C; any whole number, reduced to its
    /// pitch class. Ignored in follow mode.
    pub fn set_key(&mut self, semitones: i32)
        ensures
            old(self)@.2 ==> final(self)@ == old(self)@,
            !old(self)@.2 ==> final(self)@ == ((semitones as int) % 12, old(self)@.1, false),
    {
        proof { use_type_invariant(&*self); }
        if !self.follow_key {
            let k = pitch_class(semitones);
            self.key = k as u8;
        }
    }

    /// The user's scale, as a `ScaleType::all()` index; indices past the end
    /// take the last scale. Ignored in follow mode.
    pub fn set_scale(&mut self, idx: usize)
        ensures
            old(self)@.2 ==> final(self)@ == old(self)@,
            !old(self)@.2 ==> final(self)@ == (
                old(self)@.0,
                if idx < SCALE_COUNT { idx as int } else { SCALE_COUNT - 1 },
                false,
            ),
    {
        proof { use_type_invariant(&*self); }
        if !self.follow_key {
            self.scale_idx = if idx < SCALE_COUNT { idx } else { SCALE_COUNT - 1 };
        }
    }

    /// Switch between following the chord track and the manual settings.
    pub fn set_follow(&mut self, on: bool)
        ensures
            final(self)@ == (old(self)@.0, old(self)@.1, on),
    {
        proof { use_type_invariant(&*self); }
        self.follow_key = on;
    }

    /// The chord track's key: `root` (any MIDI note or pitch class) and a
    /// `ScaleType::all()` index. Applies only in follow mode.
    pub fn set_song_key(&mut self, root: u8, scale_idx: usize)
        ensures
            !old(self)@.2 ==> final(self)@ == old(self)@,
            old(self)@.2 ==> final(self)@ == (
                (root as int) % 12,
                if scale_idx < SCALE_COUNT { scale_idx as int } else { SCALE_COUNT - 1 },
                true,
            ),
    {
        proof { use_type_invariant(&*self); }
        if self.follow_key {
            self.key = root % 12;
            self.scale_idx = if scale_idx < SCALE_COUNT { scale_idx } else { SCALE_COUNT - 1 };
        }
    }
}

} // verus!

verus! {

/// The scale-degree offset of each harmony voice; a voice at degree 0 is off.
#[derive(Debug, Clone)]
pub struct HarmonyDegrees {
    degrees: [i8; 3],
}

impl View for HarmonyDegrees {
    type V = Seq<int>;

    closed spec fn view(&self) -> Seq<int> {
        self.degrees@.map_values(|d: i8| d as int)
    }
}

impl HarmonyDegrees {
    /// A third above, a fourth below, third voice off.
    pub fn new() -> (h: HarmonyDegrees)
        ensures
            h@ == seq![2int, -3int, 0int],
    {
        let h = HarmonyDegrees { degrees: [2, -3, 0] };
        assert(h@ =~= seq![2int, -3int, 0int]);
        h
    }

    /// Set the degree of voice `voice`, clamped to `-7..=7`; voices past the
    /// third are ignored.
    pub fn set_degree(&mut self, voice: usize, degree: i32)
        ensures
            final(self)@.len() == 3,
            voice >= 3 ==> final(self)@ == old(self)@,
            voice < 3 ==> final(self)@ == old(self)@.update(
                voice as int,
                if degree < -7 { -7 } else if degree > 7 { 7 } else { degree as int },
            ),
    {
        if voice < 3 {
            let d: i32 = if degree < -7 { -7 } else if degree > 7 { 7 } else { degree };
            self.degrees[voice] = d as i8;
            assert(self@ =~= old(self)@.update(voice as int, d as int));
        }
    }

    /// The degree offset of voice `voice` (below 3).
    pub fn degree(&self, voice: usize) -> (d: i8)
        requires
            voice < 3,
        ensures
            d as int == self@[voice as int],
    {
        self.degrees[voice]
    }

    /// Whether voice `voice` (below 3) sounds: its degree is not 0.
    pub fn voice_enabled(&self, voice: usize) -> (on: bool)
        requires
            voice < 3,
        ensures
            on == (self@[voice as int] != 0),
    {
        self.degrees[voice] != 0
    }
}

} // verus!

verus! {

/// Semitone offsets from the root of the eight voices of each built-in chord:
/// Major, Minor, Maj7, Min7, Sus4, Dim, and octaves plus fifths.
pub open spec fn chord_intervals(chord: int) -> Seq<int> {
    if chord == 0 {
        seq![0int, 4, 7, 12, 16, 19, 24, 28]
    } else if chord == 1 {
        seq![0int, 3, 7, 12, 15, 19, 24, 27]
    } else if chord == 2 {
        seq![0int, 4, 7, 11, 12, 16, 19, 23]
    } else if chord == 3 {
        seq![0int, 3, 7, 10, 12, 15, 19, 22]
    } else if chord == 4 {
        seq![0int, 5, 7, 12, 17, 19, 24, 29]
    } else if chord == 5 {
        seq![0int, 3, 6, 9, 12, 15, 18, 21]
    } else {
        seq![0int, 12, 24, 36, 7, 19, 31, 43]
    }
}

/// The chord tones, in semitones above the root, of built-in chords 0 to 5:
/// major triad (0, 4, 7), minor triad (0, 3, 7), major seventh (0, 4, 7, 11),
/// minor seventh (0, 3, 7, 10), suspended fourth (0, 5, 7) and diminished
/// seventh (0, 3, 6, 9).
pub open spec fn chord_tones(chord: int) -> Seq<int> {
    if chord == 0 {
        seq![0int, 4, 7]
    } else if chord == 1 {
        seq![0int, 3, 7]
    } else if chord == 2 {
        seq![0int, 4, 7, 11]
    } else if chord == 3 {
        seq![0int, 3, 7, 10]
    } else if chord == 4 {
        seq![0int, 5, 7]
    } else {
        seq![0int, 3, 6, 9]
    }
}

/// The eight voices of built-in chords 0 to 5 stack the chord's tones upward:
/// voice `i` takes tone `i mod n` of the `n` tones, raised one octave for each
/// time round. Chord 6 rings four octaves of the root (voices 0 to 3) and four
/// octaves of the fifth (voices 4 to 7).
pub proof fn lemma_chord_voicings(chord: int, i: int)
    requires
        0 <= i < 8,
    ensures
        chord_intervals(chord).len() == 8,
        0 <= chord < 6 ==> chord_intervals(chord)[i] == chord_tones(chord)[i % chord_tones(chord).len() as int]
            + 12 * (i / chord_tones(chord).len() as int),
        chord == 6 ==> chord_intervals(chord)[i] == if i < 4 { 12 * i } else { 7 + 12 * (i - 4) },
{
    assert(i % 3 == i - 3 * (i / 3) && 0 <= i % 3 < 3);
    assert(i % 4 == i - 4 * (i / 4) && 0 <= i % 4 < 4);
    if i < 3 {
        assert(i / 3 == 0 && i / 4 == 0);
    } else if i < 4 {
        assert(i / 3 == 1 && i / 4 == 0);
    } else if i < 6 {
        assert(i / 3 == 1 && i / 4 == 1);
    } else {
        assert(i / 3 == 2 && i / 4 == 1);
    }
}

/// With the bank not following a handed-over chord, voice `i` rings the
/// built-in chord's voicing on the root from MIDI 48, shifted by the octave;
/// e.g. root C, octave 0 and the major-seventh chord ring 48, 52, 55, 59, 60,
/// 64, 67, 71.
pub proof fn lemma_built_in_chord_notes(t: TuningState, i: int)
    requires
        !t.follow || t.followed is None,
        0 <= t.chord < 6,
        0 <= i < 8,
    ensures
        tuning_notes(t)[i] == 48 + t.root + 12 * t.octave + chord_tones(t.chord)[i
            % chord_tones(t.chord).len() as int] + 12 * (i / chord_tones(t.chord).len() as int),
        t.root == 0 && t.octave == 0 && t.chord == 2 ==> tuning_notes(t) == seq![
            48int,
            52,
            55,
            59,
            60,
            64,
            67,
            71,
        ],
{
    lemma_chord_voicings(t.chord, i);
    if t.root == 0 && t.octave == 0 && t.chord == 2 {
        assert(tuning_notes(t) =~= seq![48int, 52, 55, 59, 60, 64, 67, 71]);
    }
}

/// The intervals of built-in chord `chord` (below 7).
fn chord_row(chord: u8) -> (r: [i32; 8])
    requires
        chord < 7,
    ensures
        r@.map_values(|x: i32| x as int) == chord_intervals(chord as int),
{
    let r: [i32; 8] = if chord == 0 {
        [0, 4, 7, 12, 16, 19, 24, 28]
    } else if chord == 1 {
        [0, 3, 7, 12, 15, 19, 24, 27]
    } else if chord == 2 {
        [0, 4, 7, 11, 12, 16, 19, 23]
    } else if chord == 3 {
        [0, 3, 7, 10, 12, 15, 19, 22]
    } else if chord == 4 {
        [0, 5, 7, 12, 17, 19, 24, 29]
    } else if chord == 5 {
        [0, 3, 6, 9, 12, 15, 18, 21]
    } else {
        [0, 12, 24, 36, 7, 19, 31, 43]
    };
    assert(r@.map_values(|x: i32| x as int) =~= chord_intervals(chord as int));
    r
}

/// The notes a handed-over chord spreads over the eight voices: voice `i`
/// takes interval `i mod n` of the `n` intervals, one octave higher for each
/// time round the list, from the third octave (MIDI 48) up.
pub open spec fn handed_chord_notes(root: int, intervals: Seq<int>) -> Seq<int> {
    Seq::new(
        8,
        |i: int| 48 + root % 12 + intervals[i % intervals.len() as int] + 12 * (i / intervals.len() as int),
    )
}

/// The state that decides which notes the resonator bank rings at.
#[derive(Debug)]
pub struct ResonatorTuning {
    root: i32,
    octave: i32,
    chord: u8,
    follow: bool,
    followed: Option<[i32; 8]>,
}

/// The mathematical state of a `ResonatorTuning`.
pub struct TuningState {
    /// Pitch class of the root, `0..12`.
    pub root: int,
    /// Octave shift, `-2..=2`.
    pub octave: int,
    /// Built-in chord, `0..7`.
    pub chord: int,
    /// Tune to the handed-over chord instead of root and chord.
    pub follow: bool,
    /// The eight notes of the chord handed over last, if one was.
    pub followed: Option<Seq<int>>,
}

/// The eight MIDI notes the voices ring at: the handed-over chord shifted by
/// the octave when following one, else the built-in chord on the root from
/// the third octave up, shifted by the octave.
pub open spec fn tuning_notes(t: TuningState) -> Seq<int> {
    Seq::new(
        8,
        |i: int|
            if t.follow && t.followed is Some {
                t.followed->0[i] + 12 * t.octave
            } else {
                48 + t.root + 12 * t.octave + chord_intervals(t.chord % 7)[i]
            },
    )
}

impl View for ResonatorTuning {
    type V = TuningState;

    closed spec fn view(&self) -> TuningState {
        TuningState {
            root: self.root as int,
            octave: self.octave as int,
            chord: self.chord as int,
            follow: self.follow,
            followed: match self.followed {
                Some(n) => Some(n@.map_values(|x: i32| x as int)),
                None => None,
            },
        }
    }
}

impl ResonatorTuning {
    #[verifier::type_invariant]
    spec fn inv(self) -> bool {
        &&& 0 <= self.root < 12
        &&& -2 <= self.octave <= 2
        &&& self.chord < 7
        &&& (self.followed matches Some(n) ==> forall|i: int|
            0 <= i < 8 ==> 48 <= #[trigger] n@[i] <= 48 + 11 + 255 + 12 * 8)
    }

    /// Root C, no octave shift, the Major chord, not following.
    pub fn new() -> (t: ResonatorTuning)
        ensures
            t@ == (TuningState { root: 0, octave: 0, chord: 0, follow: false, followed: None }),
    {
        ResonatorTuning { root: 0, octave: 0, chord: 0, follow: false, followed: None }
    }

    /// Root as any semitone count, reduced to its pitch class.
    pub fn set_root(&mut self, v: i32)
        ensures
            final(self)@ == (TuningState { root: (v as int) % 12, ..old(self)@ }),
    {
        proof { use_type_invariant(&*self); }
        self.root = pitch_class(v);
    }

    /// Octave shift, clamped to `-2..=2`.
    pub fn set_octave(&mut self, v: i32)
        ensures
            final(self)@ == (TuningState {
                octave: if v < -2 { -2 } else if v > 2 { 2 } else { v as int },
                ..old(self)@
            }),
    {
        proof { use_type_invariant(&*self); }
        self.octave = if v < -2 { -2 } else if v > 2 { 2 } else { v };
    }

    /// Built-in chord, clamped to the last one (6).
    pub fn set_chord(&mut self, v: u8)
        ensures
            final(self)@ == (TuningState { chord: if v > 6 { 6 } else { v as int }, ..old(self)@ }),
    {
        proof { use_type_invariant(&*self); }
        self.chord = if v > 6 { 6 } else { v };
    }

    /// Tune to the handed-over chord (when one was handed over) or to the
    /// root and built-in chord.
    pub fn set_follow(&mut self, on: bool)
        ensures
            final(self)@ == (TuningState { follow: on, ..old(self)@ }),
    {
        proof { use_type_invariant(&*self); }
        self.follow = on;
    }

    /// Whether the handed-over chord is followed.
    pub fn follow(&self) -> (f: bool)
        ensures
            f == self@.follow,
    {
        self.follow
    }

    /// Hand over the chord in force: `root` as any MIDI note or pitch class
    /// and its intervals in semitones. An empty chord is ignored.
    pub fn set_key_chord(&mut self, root: u8, intervals: &[u8])
        ensures
            intervals@.len() == 0 ==> final(self)@ == old(self)@,
            intervals@.len() > 0 ==> final(self)@ == (TuningState {
                followed: Some(handed_chord_notes(
                    root as int,
                    intervals@.map_values(|x: u8| x as int),
                )),
                ..old(self)@
            }),
    {
        proof { use_type_invariant(&*self); }
        let len = intervals.len();
        if len == 0 {
            return;
        }
        let ghost ivs = intervals@.map_values(|x: u8| x as int);
        let base: i32 = 48 + (root % 12) as i32;
        let mut notes: [i32; 8] = [0; 8];
        let mut i: usize = 0;
        while i < 8
            invariant
                len == intervals@.len(),
                len > 0,
                ivs == intervals@.map_values(|x: u8| x as int),
                base == 48 + (root as int) % 12,
                0 <= i <= 8,
                notes@.len() == 8,
                forall|j: int| 0 <= j < i ==> #[trigger] notes@[j] as int
                    == handed_chord_notes(root as int, ivs)[j],
                forall|j: int| 0 <= j < i ==> 48 <= #[trigger] notes@[j] <= 48 + 11 + 255 + 12 * 8,
            decreases 8 - i,
        {
            let k = i % len;
            let lap = i / len;
            assert(lap <= 8) by {
                assert(i / len <= i) by (nonlinear_arith)
                    requires len > 0, i <= 8;
            }
            let v = base + intervals[k] as i32 + 12 * lap as i32;
            notes[i] = v;
            i += 1;
        }
        self.followed = Some(notes);
        proof {
            assert(notes@.map_values(|x: i32| x as int) =~= handed_chord_notes(root as int, ivs));
        }
    }

    /// The eight MIDI notes the voices ring at.
    pub fn voice_notes(&self) -> (notes: [i32; 8])
        ensures
            notes@.map_values(|x: i32| x as int) == tuning_notes(self@),
    {
        proof { use_type_invariant(self); }
        let mut notes: [i32; 8] = [0; 8];
        let intervals = chord_row(self.chord);
        let mut i: usize = 0;
        while i < 8
            invariant
                0 <= i <= 8,
                notes@.len() == 8,
                intervals@.map_values(|x: i32| x as int) == chord_intervals(self.chord as int),
                0 <= self.root < 12,
                -2 <= self.octave <= 2,
                self.chord < 7,
                self.followed matches Some(n) ==> forall|j: int|
                    0 <= j < 8 ==> 48 <= #[trigger] n@[j] <= 48 + 11 + 255 + 12 * 8,
                forall|j: int| 0 <= j < i ==> #[trigger] notes@[j] as int == tuning_notes(self@)[j],
            decreases 8 - i,
        {
            let note = match (self.follow, &self.followed) {
                (true, Some(n)) => n[i] + self.octave * 12,
                _ => 48 + self.root + self.octave * 12 + intervals[i],
            };
            proof {
                assert(intervals@.map_values(|x: i32| x as int)[i as int] == intervals@[i as int] as int);
            }
            notes[i] = note;
            i += 1;
        }
        proof {
            assert(notes@.map_values(|x: i32| x as int) =~= tuning_notes(self@));
        }
        notes
    }
}

/// A handed-over chord changes nothing the voices ring at until the bank is
/// set to follow.
pub proof fn lemma_chord_waits_for_follow(before: TuningState, after: TuningState)
    requires
        !before.follow,
        after == (TuningState { followed: after.followed, ..before }),
    ensures
        tuning_notes(after) == tuning_notes(before),
{
    assert(tuning_notes(after) =~= tuning_notes(before));
}

/// When following a handed-over chord, every voice rings a note of that
/// chord: its pitch class is the root's plus one of the intervals.
pub proof fn lemma_following_rings_the_chord(t: TuningState, root: int, intervals: Seq<int>, i: int)
    requires
        t.follow,
        intervals.len() > 0,
        t.followed == Some(handed_chord_notes(root, intervals)),
        0 <= i < 8,
    ensures
        tuning_notes(t)[i] % 12 == (root % 12 + intervals[i % intervals.len() as int]) % 12,
{
    let n = intervals.len() as int;
    let x = root % 12 + intervals[i % n];
    let k = 4 + i / n + t.octave;
    assert(tuning_notes(t)[i] == 12 * k + x);
    vstd::arithmetic::div_mod::lemma_mod_multiples_vanish(k, x, 12);
}

/// A handed-over chord is voiced upward from the third octave: the first voice
/// rings the root's pitch class plus the first interval between MIDI 48 and
/// 59 (plus the interval and the octave shift), and each voice `n` places
/// above another (`n` the number of intervals) rings exactly one octave higher.
pub proof fn lemma_handed_chord_voicing(t: TuningState, root: int, intervals: Seq<int>, i: int)
    requires
        t.follow,
        intervals.len() > 0,
        t.followed == Some(handed_chord_notes(root, intervals)),
        0 <= i < 8,
    ensures
        48 <= tuning_notes(t)[0] - intervals[0] - 12 * t.octave < 60,
        (tuning_notes(t)[0] - intervals[0] - 12 * t.octave) % 12 == root % 12,
        i + intervals.len() < 8 ==> tuning_notes(t)[i + intervals.len() as int] == tuning_notes(t)[i] + 12,
{
    let n = intervals.len() as int;
    vstd::arithmetic::div_mod::lemma_mod_bound(root, 12);
    vstd::arithmetic::div_mod::lemma_small_mod(0, n as nat);
    vstd::arithmetic::div_mod::lemma_mod_multiples_vanish(4, root % 12, 12);
    vstd::arithmetic::div_mod::lemma_mod_twice(root, 12);
    if i + n < 8 {
        vstd::arithmetic::div_mod::lemma_mod_add_multiples_vanish(i, n);
        vstd::arithmetic::div_mod::lemma_div_plus_one(i, n);
    }
}

} // verus!
