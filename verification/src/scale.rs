use vstd::prelude::*;

verus! {

/// The musical scales the pitch-correcting and harmonizing effects snap to.
/// The index of a scale is its position in `ScaleType::all()`.
#[derive(Debug, Clone, Copy, PartialEq, Eq, Structural)]
pub enum ScaleType {
    Major,
    PentatonicMajor,
    Minor,
    Dorian,
    Phrygian,
    Lydian,
    Mixolydian,
    Blues,
    Chromatic,
}

/// Number of scales in `ScaleType::all()`.
pub const SCALE_COUNT: usize = 9;

pub open spec fn scale_type_at(i: int) -> ScaleType {
    if i == 1 {
        ScaleType::PentatonicMajor
    } else if i == 2 {
        ScaleType::Minor
    } else if i == 3 {
        ScaleType::Dorian
    } else if i == 4 {
        ScaleType::Phrygian
    } else if i == 5 {
        ScaleType::Lydian
    } else if i == 6 {
        ScaleType::Mixolydian
    } else if i == 7 {
        ScaleType::Blues
    } else if i == 8 {
        ScaleType::Chromatic
    } else {
        ScaleType::Major
    }
}

impl ScaleType {
    /// The scales in index order.
    pub open spec fn catalog() -> Seq<ScaleType> {
        Seq::new(SCALE_COUNT as nat, |i: int| scale_type_at(i))
    }

    /// The index of a scale.
    pub open spec fn spec_index(self) -> int {
        match self {
            ScaleType::Major => 0,
            ScaleType::PentatonicMajor => 1,
            ScaleType::Minor => 2,
            ScaleType::Dorian => 3,
            ScaleType::Phrygian => 4,
            ScaleType::Lydian => 5,
            ScaleType::Mixolydian => 6,
            ScaleType::Blues => 7,
            ScaleType::Chromatic => 8,
        }
    }

    /// Every scale sits at its own index, and each index below `SCALE_COUNT`
    /// holds the scale whose index it is.
    pub proof fn lemma_catalog_positions()
        ensures
            Self::catalog().len() == SCALE_COUNT,
            forall|t: ScaleType|
                0 <= #[trigger] t.spec_index() < SCALE_COUNT && Self::catalog()[t.spec_index()] == t,
            forall|i: int| 0 <= i < SCALE_COUNT ==> (#[trigger] Self::catalog()[i]).spec_index() == i,
    {
    }

    /// The scales in index order, as listed: Major, PentatonicMajor, Minor,
    /// Dorian, Phrygian, Lydian, Mixolydian, Blues, Chromatic.
    pub proof fn lemma_catalog_contents()
        ensures
            Self::catalog() == seq![
                ScaleType::Major,
                ScaleType::PentatonicMajor,
                ScaleType::Minor,
                ScaleType::Dorian,
                ScaleType::Phrygian,
                ScaleType::Lydian,
                ScaleType::Mixolydian,
                ScaleType::Blues,
                ScaleType::Chromatic,
            ],
    {
        assert(Self::catalog() =~= seq![
            ScaleType::Major,
            ScaleType::PentatonicMajor,
            ScaleType::Minor,
            ScaleType::Dorian,
            ScaleType::Phrygian,
            ScaleType::Lydian,
            ScaleType::Mixolydian,
            ScaleType::Blues,
            ScaleType::Chromatic,
        ]);
    }

    /// Every scale, in index order.
    pub fn all() -> (all: &'static [ScaleType])
        ensures
            all@ == Self::catalog(),
    {
        let all: &'static [ScaleType] = &[
            ScaleType::Major,
            ScaleType::PentatonicMajor,
            ScaleType::Minor,
            ScaleType::Dorian,
            ScaleType::Phrygian,
            ScaleType::Lydian,
            ScaleType::Mixolydian,
            ScaleType::Blues,
            ScaleType::Chromatic,
        ];
        assert(all@ =~= Self::catalog());
        all
    }

    /// The scale at `idx`, with indices past the end clamped to the last scale.
    pub fn at_clamped(idx: usize) -> (s: ScaleType)
        ensures
            s == Self::catalog()[if idx < SCALE_COUNT { idx as int } else { SCALE_COUNT - 1 }],
    {
        let all = Self::all();
        let i = if idx < all.len() { idx } else { all.len() - 1 };
        all[i]
    }
}

/// The scale that index `idx` names in the chord track's scale list
/// (Chromatic, Major, Minor, Pentatonic, Blues, Dorian, Phrygian, Lydian,
/// Mixolydian); anything past the end names Major.
pub open spec fn generative_scale(idx: int) -> ScaleType {
    if idx == 0 {
        ScaleType::Chromatic
    } else if idx == 1 {
        ScaleType::Major
    } else if idx == 2 {
        ScaleType::Minor
    } else if idx == 3 {
        ScaleType::PentatonicMajor
    } else if idx == 4 {
        ScaleType::Blues
    } else if idx == 5 {
        ScaleType::Dorian
    } else if idx == 6 {
        ScaleType::Phrygian
    } else if idx == 7 {
        ScaleType::Lydian
    } else if idx == 8 {
        ScaleType::Mixolydian
    } else {
        ScaleType::Major
    }
}

/// The chord track's scale list, in order: Chromatic, Major, Minor,
/// Pentatonic (major), Blues, Dorian, Phrygian, Lydian, Mixolydian; every other
/// index names Major.
pub proof fn lemma_generative_scale_list(idx: int)
    ensures
        Seq::new(9, |i: int| generative_scale(i)) == seq![
            ScaleType::Chromatic,
            ScaleType::Major,
            ScaleType::Minor,
            ScaleType::PentatonicMajor,
            ScaleType::Blues,
            ScaleType::Dorian,
            ScaleType::Phrygian,
            ScaleType::Lydian,
            ScaleType::Mixolydian,
        ],
        !(0 <= idx < 9) ==> generative_scale(idx) == ScaleType::Major,
{
    assert(Seq::new(9, |i: int| generative_scale(i)) =~= seq![
        ScaleType::Chromatic,
        ScaleType::Major,
        ScaleType::Minor,
        ScaleType::PentatonicMajor,
        ScaleType::Blues,
        ScaleType::Dorian,
        ScaleType::Phrygian,
        ScaleType::Lydian,
        ScaleType::Mixolydian,
    ]);
}

/// Map an index of the chord track's scale list to the `ScaleType::all()`
/// index of the same scale, which is what the Retune/Harmony effects take.
pub fn map_generative_scale(idx: usize) -> (r: usize)
    ensures
        r < SCALE_COUNT,
        ScaleType::catalog()[r as int] == generative_scale(idx as int),
        r as int == generative_scale(idx as int).spec_index(),
{
    let target = match idx {
        0 => ScaleType::Chromatic,
        1 => ScaleType::Major,
        2 => ScaleType::Minor,
        3 => ScaleType::PentatonicMajor,
        4 => ScaleType::Blues,
        5 => ScaleType::Dorian,
        6 => ScaleType::Phrygian,
        7 => ScaleType::Lydian,
        8 => ScaleType::Mixolydian,
        _ => ScaleType::Major,
    };
    let all = ScaleType::all();
    proof {
        ScaleType::lemma_catalog_positions();
        assert(all@[target.spec_index()] == target);
    }
    let mut i: usize = 0;
    while i < all.len()
        invariant
            all@ == ScaleType::catalog(),
            all@.len() == SCALE_COUNT,
            i <= all@.len(),
            target == generative_scale(idx as int),
            all@[target.spec_index()] == target,
            0 <= target.spec_index() < SCALE_COUNT,
            forall|k: int| 0 <= k < SCALE_COUNT ==> (#[trigger] all@[k]).spec_index() == k,
            forall|j: int| 0 <= j < i ==> all@[j] != target,
        decreases all.len() - i,
    {
        if all[i] == target {
            return i;
        }
        i += 1;
    }
    0
}

} // verus!
