use vstd::prelude::*;

verus! {

/// Tempo-sync note division: plain, dotted (3/2 of the plain length) and
/// triplet (2/3 of the plain length).
#[derive(Debug, Clone, Copy, PartialEq, Eq, Structural)]
pub enum TempoDivision {
    Whole,
    Half,
    Quarter,
    Eighth,
    Sixteenth,
    ThirtySecond,
    DottedHalf,
    DottedQuarter,
    DottedEighth,
    DottedSixteenth,
    TripletHalf,
    TripletQuarter,
    TripletEighth,
    TripletSixteenth,
}

pub open spec fn tempo_division_at(i: int) -> TempoDivision {
    if i == 1 {
        TempoDivision::Half
    } else if i == 2 {
        TempoDivision::Quarter
    } else if i == 3 {
        TempoDivision::Eighth
    } else if i == 4 {
        TempoDivision::Sixteenth
    } else if i == 5 {
        TempoDivision::ThirtySecond
    } else if i == 6 {
        TempoDivision::DottedHalf
    } else if i == 7 {
        TempoDivision::DottedQuarter
    } else if i == 8 {
        TempoDivision::DottedEighth
    } else if i == 9 {
        TempoDivision::DottedSixteenth
    } else if i == 10 {
        TempoDivision::TripletHalf
    } else if i == 11 {
        TempoDivision::TripletQuarter
    } else if i == 12 {
        TempoDivision::TripletEighth
    } else if i == 13 {
        TempoDivision::TripletSixteenth
    } else {
        TempoDivision::Whole
    }
}

impl TempoDivision {
    /// The catalogue in picker order: the division at position `i` is the one that
    /// index `i` selects.
    pub open spec fn catalog() -> Seq<TempoDivision> {
        Seq::new(14, |i: int| tempo_division_at(i))
    }

    /// What `from_index` gives: the catalogue entry, or `Quarter` past its end.
    pub open spec fn spec_from_index(i: int) -> TempoDivision {
        if 0 <= i < 14 {
            Self::catalog()[i]
        } else {
            TempoDivision::Quarter
        }
    }

    /// The position of a division in the catalogue.
    pub open spec fn spec_index(self) -> int {
        match self {
            TempoDivision::Whole => 0,
            TempoDivision::Half => 1,
            TempoDivision::Quarter => 2,
            TempoDivision::Eighth => 3,
            TempoDivision::Sixteenth => 4,
            TempoDivision::ThirtySecond => 5,
            TempoDivision::DottedHalf => 6,
            TempoDivision::DottedQuarter => 7,
            TempoDivision::DottedEighth => 8,
            TempoDivision::DottedSixteenth => 9,
            TempoDivision::TripletHalf => 10,
            TempoDivision::TripletQuarter => 11,
            TempoDivision::TripletEighth => 12,
            TempoDivision::TripletSixteenth => 13,
        }
    }

    /// The label the picker shows for a division.
    pub open spec fn spec_display_name(self) -> Seq<char> {
        match self {
            TempoDivision::Whole => "1/1"@,
            TempoDivision::Half => "1/2"@,
            TempoDivision::Quarter => "1/4"@,
            TempoDivision::Eighth => "1/8"@,
            TempoDivision::Sixteenth => "1/16"@,
            TempoDivision::ThirtySecond => "1/32"@,
            TempoDivision::DottedHalf => "1/2D"@,
            TempoDivision::DottedQuarter => "1/4D"@,
            TempoDivision::DottedEighth => "1/8D"@,
            TempoDivision::DottedSixteenth => "1/16D"@,
            TempoDivision::TripletHalf => "1/2T"@,
            TempoDivision::TripletQuarter => "1/4T"@,
            TempoDivision::TripletEighth => "1/8T"@,
            TempoDivision::TripletSixteenth => "1/16T"@,
        }
    }

    /// Every division sits at its own index, and each index below 14 holds the
    /// division whose index it is.
    pub proof fn lemma_catalog_positions()
        ensures
            Self::catalog().len() == 14,
            forall|t: TempoDivision|
                0 <= #[trigger] t.spec_index() < 14 && Self::catalog()[t.spec_index()] == t,
            forall|i: int| 0 <= i < 14 ==> (#[trigger] Self::catalog()[i]).spec_index() == i,
    {
    }

    /// Turning a division into its index and back gives the same division.
    pub proof fn lemma_index_round_trip(t: TempoDivision)
        ensures
            0 <= t.spec_index() < 14,
            Self::spec_from_index(t.spec_index()) == t,
            Self::catalog().contains(t),
    {
        Self::lemma_catalog_positions();
        assert(Self::catalog()[t.spec_index()] == t);
    }

    /// Every index below 14 selects a division whose index is that index again,
    /// so no two positions of the catalogue hold the same division.
    pub proof fn lemma_from_index_round_trip(i: int)
        requires
            0 <= i < 14,
        ensures
            Self::spec_from_index(i).spec_index() == i,
            forall|j: int| 0 <= j < 14 && j != i ==> Self::catalog()[j] != Self::catalog()[i],
    {
        Self::lemma_catalog_positions();
        assert forall|j: int| 0 <= j < 14 && j != i implies Self::catalog()[j] != Self::catalog()[i] by {
            assert(Self::catalog()[j].spec_index() == j);
            assert(Self::catalog()[i].spec_index() == i);
        }
    }

    /// The divisions in picker order, as listed: Whole, Half, Quarter, Eighth, Sixteenth, ThirtySecond, DottedHalf, DottedQuarter, DottedEighth, DottedSixteenth, TripletHalf, TripletQuarter, TripletEighth, TripletSixteenth;
    /// with these labels; and every index outside the list selects `Quarter`.
    pub proof fn lemma_catalog_contents()
        ensures
            Self::catalog() == seq![TempoDivision::Whole, TempoDivision::Half, TempoDivision::Quarter, TempoDivision::Eighth, TempoDivision::Sixteenth, TempoDivision::ThirtySecond, TempoDivision::DottedHalf, TempoDivision::DottedQuarter, TempoDivision::DottedEighth, TempoDivision::DottedSixteenth, TempoDivision::TripletHalf, TempoDivision::TripletQuarter, TempoDivision::TripletEighth, TempoDivision::TripletSixteenth],
            Seq::new(14, |i: int| Self::catalog()[i].spec_display_name()) == seq!["1/1"@, "1/2"@, "1/4"@, "1/8"@, "1/16"@, "1/32"@, "1/2D"@, "1/4D"@, "1/8D"@, "1/16D"@, "1/2T"@, "1/4T"@, "1/8T"@, "1/16T"@],
            forall|i: int| !(0 <= i < 14) ==> #[trigger] Self::spec_from_index(i) == TempoDivision::Quarter,
    {
        assert(Self::catalog() =~= seq![TempoDivision::Whole, TempoDivision::Half, TempoDivision::Quarter, TempoDivision::Eighth, TempoDivision::Sixteenth, TempoDivision::ThirtySecond, TempoDivision::DottedHalf, TempoDivision::DottedQuarter, TempoDivision::DottedEighth, TempoDivision::DottedSixteenth, TempoDivision::TripletHalf, TempoDivision::TripletQuarter, TempoDivision::TripletEighth, TempoDivision::TripletSixteenth]);
        assert(Seq::new(14, |i: int| Self::catalog()[i].spec_display_name()) =~= seq!["1/1"@, "1/2"@, "1/4"@, "1/8"@, "1/16"@, "1/32"@, "1/2D"@, "1/4D"@, "1/8D"@, "1/16D"@, "1/2T"@, "1/4T"@, "1/8T"@, "1/16T"@]);
    }

    /// The label the picker shows for this division.
    pub fn display_name(&self) -> (name: &'static str)
        ensures
            name@ == self.spec_display_name(),
    {
        match self {
            TempoDivision::Whole => "1/1",
            TempoDivision::Half => "1/2",
            TempoDivision::Quarter => "1/4",
            TempoDivision::Eighth => "1/8",
            TempoDivision::Sixteenth => "1/16",
            TempoDivision::ThirtySecond => "1/32",
            TempoDivision::DottedHalf => "1/2D",
            TempoDivision::DottedQuarter => "1/4D",
            TempoDivision::DottedEighth => "1/8D",
            TempoDivision::DottedSixteenth => "1/16D",
            TempoDivision::TripletHalf => "1/2T",
            TempoDivision::TripletQuarter => "1/4T",
            TempoDivision::TripletEighth => "1/8T",
            TempoDivision::TripletSixteenth => "1/16T",
        }
    }

    /// Every division, in picker order.
    pub fn all() -> (all: &'static [TempoDivision])
        ensures
            all@ == Self::catalog(),
    {
        let all: &'static [TempoDivision] = &[
            TempoDivision::Whole,
            TempoDivision::Half,
            TempoDivision::Quarter,
            TempoDivision::Eighth,
            TempoDivision::Sixteenth,
            TempoDivision::ThirtySecond,
            TempoDivision::DottedHalf,
            TempoDivision::DottedQuarter,
            TempoDivision::DottedEighth,
            TempoDivision::DottedSixteenth,
            TempoDivision::TripletHalf,
            TempoDivision::TripletQuarter,
            TempoDivision::TripletEighth,
            TempoDivision::TripletSixteenth,
        ];
        assert(all@ =~= Self::catalog());
        all
    }

    /// The division at picker index `index`; `Quarter` past the end of the catalogue.
    pub fn from_index(index: usize) -> (t: TempoDivision)
        ensures
            t == Self::spec_from_index(index as int),
    {
        let all = Self::all();
        if index < all.len() {
            all[index]
        } else {
            TempoDivision::Quarter
        }
    }

    /// The picker index of this division: its first position in `all()`.
    pub fn index(&self) -> (i: usize)
        ensures
            i as int == self.spec_index(),
            Self::catalog()[i as int] == *self,
    {
        let all = Self::all();
        proof {
            Self::lemma_catalog_positions();
            assert(all@[self.spec_index()] == *self);
        }
        let mut i: usize = 0;
        while i < all.len()
            invariant
                all@ == Self::catalog(),
                all@.len() == 14,
                i <= all@.len(),
                all@[self.spec_index()] == *self,
                0 <= self.spec_index() < 14,
                forall|k: int| 0 <= k < 14 ==> (#[trigger] all@[k]).spec_index() == k,
                forall|j: int| 0 <= j < i ==> all@[j] != *self,
            decreases all.len() - i,
        {
            if all[i] == *self {
                return i;
            }
            i += 1;
        }
        0
    }
}

impl TempoDivision {
    /// Length of the division in beats (quarter notes), as numerator and
    /// denominator in lowest terms.
    pub open spec fn spec_beats(self) -> (u32, u32) {
        match self {
            TempoDivision::Whole => (4, 1),
            TempoDivision::Half => (2, 1),
            TempoDivision::Quarter => (1, 1),
            TempoDivision::Eighth => (1, 2),
            TempoDivision::Sixteenth => (1, 4),
            TempoDivision::ThirtySecond => (1, 8),
            TempoDivision::DottedHalf => (3, 1),
            TempoDivision::DottedQuarter => (3, 2),
            TempoDivision::DottedEighth => (3, 4),
            TempoDivision::DottedSixteenth => (3, 8),
            TempoDivision::TripletHalf => (4, 3),
            TempoDivision::TripletQuarter => (2, 3),
            TempoDivision::TripletEighth => (1, 3),
            TempoDivision::TripletSixteenth => (1, 6),
        }
    }

    /// `a` lasts `p / q` times as long as `b`.
    pub open spec fn lasts_times(a: TempoDivision, b: TempoDivision, p: int, q: int) -> bool {
        a.spec_beats().0 * b.spec_beats().1 * q == p * b.spec_beats().0 * a.spec_beats().1
    }

    /// Length of the division in beats, as `(numerator, denominator)`: a quarter
    /// note is `(1, 1)`, a dotted eighth `(3, 4)`, a sixteenth triplet `(1, 6)`.
    pub fn beats(&self) -> (r: (u32, u32))
        ensures
            r == self.spec_beats(),
            r.1 > 0,
    {
        match self {
            TempoDivision::Whole => (4, 1),
            TempoDivision::Half => (2, 1),
            TempoDivision::Quarter => (1, 1),
            TempoDivision::Eighth => (1, 2),
            TempoDivision::Sixteenth => (1, 4),
            TempoDivision::ThirtySecond => (1, 8),
            TempoDivision::DottedHalf => (3, 1),
            TempoDivision::DottedQuarter => (3, 2),
            TempoDivision::DottedEighth => (3, 4),
            TempoDivision::DottedSixteenth => (3, 8),
            TempoDivision::TripletHalf => (4, 3),
            TempoDivision::TripletQuarter => (2, 3),
            TempoDivision::TripletEighth => (1, 3),
            TempoDivision::TripletSixteenth => (1, 6),
        }
    }

    /// A quarter note is one beat; each plain division is half the one before
    /// it, a dotted division lasts 3/2 of its plain division, and a triplet
    /// division 2/3 of it.
    pub proof fn lemma_division_lengths()
        ensures
            TempoDivision::Quarter.spec_beats().0 == TempoDivision::Quarter.spec_beats().1,
            forall|d: TempoDivision| 0 < #[trigger] d.spec_beats().1,
            Self::lasts_times(TempoDivision::Half, TempoDivision::Whole, 1, 2),
            Self::lasts_times(TempoDivision::Quarter, TempoDivision::Half, 1, 2),
            Self::lasts_times(TempoDivision::Eighth, TempoDivision::Quarter, 1, 2),
            Self::lasts_times(TempoDivision::Sixteenth, TempoDivision::Eighth, 1, 2),
            Self::lasts_times(TempoDivision::ThirtySecond, TempoDivision::Sixteenth, 1, 2),
            Self::lasts_times(TempoDivision::DottedHalf, TempoDivision::Half, 3, 2),
            Self::lasts_times(TempoDivision::DottedQuarter, TempoDivision::Quarter, 3, 2),
            Self::lasts_times(TempoDivision::DottedEighth, TempoDivision::Eighth, 3, 2),
            Self::lasts_times(TempoDivision::DottedSixteenth, TempoDivision::Sixteenth, 3, 2),
            Self::lasts_times(TempoDivision::TripletHalf, TempoDivision::Half, 2, 3),
            Self::lasts_times(TempoDivision::TripletQuarter, TempoDivision::Quarter, 2, 3),
            Self::lasts_times(TempoDivision::TripletEighth, TempoDivision::Eighth, 2, 3),
            Self::lasts_times(TempoDivision::TripletSixteenth, TempoDivision::Sixteenth, 2, 3),
    {
        assert(TempoDivision::DottedHalf.spec_beats() == (3u32, 1u32));
        assert(TempoDivision::Half.spec_beats() == (2u32, 1u32));
    }
}


} // verus!
