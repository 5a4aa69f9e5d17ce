use vstd::prelude::*;

verus! {

/// Delay algorithm of the delay effect.
#[derive(Debug, Clone, Copy, PartialEq, Eq, Structural)]
pub enum DelayType {
    Simple,
    PingPong,
    Tape,
    MultiTap,
    Slapback,
    Analog,
    Reverse,
    Ducking,
    Diffused,
    Shimmer,
    LoFi,
}

pub open spec fn delay_type_at(i: int) -> DelayType {
    if i == 1 {
        DelayType::PingPong
    } else if i == 2 {
        DelayType::Tape
    } else if i == 3 {
        DelayType::MultiTap
    } else if i == 4 {
        DelayType::Slapback
    } else if i == 5 {
        DelayType::Analog
    } else if i == 6 {
        DelayType::Reverse
    } else if i == 7 {
        DelayType::Ducking
    } else if i == 8 {
        DelayType::Diffused
    } else if i == 9 {
        DelayType::Shimmer
    } else if i == 10 {
        DelayType::LoFi
    } else {
        DelayType::Simple
    }
}

impl DelayType {
    /// The catalogue in picker order: the delay type at position `i` is the one that
    /// index `i` selects.
    pub open spec fn catalog() -> Seq<DelayType> {
        Seq::new(11, |i: int| delay_type_at(i))
    }

    /// What `from_index` gives: the catalogue entry, or `Simple` past its end.
    pub open spec fn spec_from_index(i: int) -> DelayType {
        if 0 <= i < 11 {
            Self::catalog()[i]
        } else {
            DelayType::Simple
        }
    }

    /// The position of a delay type in the catalogue.
    pub open spec fn spec_index(self) -> int {
        match self {
            DelayType::Simple => 0,
            DelayType::PingPong => 1,
            DelayType::Tape => 2,
            DelayType::MultiTap => 3,
            DelayType::Slapback => 4,
            DelayType::Analog => 5,
            DelayType::Reverse => 6,
            DelayType::Ducking => 7,
            DelayType::Diffused => 8,
            DelayType::Shimmer => 9,
            DelayType::LoFi => 10,
        }
    }

    /// The label the picker shows for a delay type.
    pub open spec fn spec_display_name(self) -> Seq<char> {
        match self {
            DelayType::Simple => "Digital"@,
            DelayType::PingPong => "Ping Pong"@,
            DelayType::Tape => "Tape"@,
            DelayType::MultiTap => "Multi-Tap"@,
            DelayType::Slapback => "Slapback"@,
            DelayType::Analog => "Analog"@,
            DelayType::Reverse => "Reverse"@,
            DelayType::Ducking => "Ducking"@,
            DelayType::Diffused => "Diffused"@,
            DelayType::Shimmer => "Shimmer"@,
            DelayType::LoFi => "Lo-Fi"@,
        }
    }

    /// Every delay type sits at its own index, and each index below 11 holds the
    /// delay type whose index it is.
    pub proof fn lemma_catalog_positions()
        ensures
            Self::catalog().len() == 11,
            forall|t: DelayType|
                0 <= #[trigger] t.spec_index() < 11 && Self::catalog()[t.spec_index()] == t,
            forall|i: int| 0 <= i < 11 ==> (#[trigger] Self::catalog()[i]).spec_index() == i,
    {
    }

    /// Turning a delay type into its index and back gives the same delay type.
    pub proof fn lemma_index_round_trip(t: DelayType)
        ensures
            0 <= t.spec_index() < 11,
            Self::spec_from_index(t.spec_index()) == t,
            Self::catalog().contains(t),
    {
        Self::lemma_catalog_positions();
        assert(Self::catalog()[t.spec_index()] == t);
    }

    /// Every index below 11 selects a delay type whose index is that index again,
    /// so no two positions of the catalogue hold the same delay type.
    pub proof fn lemma_from_index_round_trip(i: int)
        requires
            0 <= i < 11,
        ensures
            Self::spec_from_index(i).spec_index() == i,
            forall|j: int| 0 <= j < 11 && j != i ==> Self::catalog()[j] != Self::catalog()[i],
    {
        Self::lemma_catalog_positions();
        assert forall|j: int| 0 <= j < 11 && j != i implies Self::catalog()[j] != Self::catalog()[i] by {
            assert(Self::catalog()[j].spec_index() == j);
            assert(Self::catalog()[i].spec_index() == i);
        }
    }

    /// The delay types in picker order, as listed: Simple, PingPong, Tape, MultiTap, Slapback, Analog, Reverse, Ducking, Diffused, Shimmer, LoFi;
    /// with these labels; and every index outside the list selects `Simple`.
    pub proof fn lemma_catalog_contents()
        ensures
            Self::catalog() == seq![DelayType::Simple, DelayType::PingPong, DelayType::Tape, DelayType::MultiTap, DelayType::Slapback, DelayType::Analog, DelayType::Reverse, DelayType::Ducking, DelayType::Diffused, DelayType::Shimmer, DelayType::LoFi],
            Seq::new(11, |i: int| Self::catalog()[i].spec_display_name()) == seq!["Digital"@, "Ping Pong"@, "Tape"@, "Multi-Tap"@, "Slapback"@, "Analog"@, "Reverse"@, "Ducking"@, "Diffused"@, "Shimmer"@, "Lo-Fi"@],
            forall|i: int| !(0 <= i < 11) ==> #[trigger] Self::spec_from_index(i) == DelayType::Simple,
    {
        assert(Self::catalog() =~= seq![DelayType::Simple, DelayType::PingPong, DelayType::Tape, DelayType::MultiTap, DelayType::Slapback, DelayType::Analog, DelayType::Reverse, DelayType::Ducking, DelayType::Diffused, DelayType::Shimmer, DelayType::LoFi]);
        assert(Seq::new(11, |i: int| Self::catalog()[i].spec_display_name()) =~= seq!["Digital"@, "Ping Pong"@, "Tape"@, "Multi-Tap"@, "Slapback"@, "Analog"@, "Reverse"@, "Ducking"@, "Diffused"@, "Shimmer"@, "Lo-Fi"@]);
    }

    /// The label the picker shows for this delay type.
    pub fn display_name(&self) -> (name: &'static str)
        ensures
            name@ == self.spec_display_name(),
    {
        match self {
            DelayType::Simple => "Digital",
            DelayType::PingPong => "Ping Pong",
            DelayType::Tape => "Tape",
            DelayType::MultiTap => "Multi-Tap",
            DelayType::Slapback => "Slapback",
            DelayType::Analog => "Analog",
            DelayType::Reverse => "Reverse",
            DelayType::Ducking => "Ducking",
            DelayType::Diffused => "Diffused",
            DelayType::Shimmer => "Shimmer",
            DelayType::LoFi => "Lo-Fi",
        }
    }

    /// Every delay type, in picker order.
    pub fn all() -> (all: &'static [DelayType])
        ensures
            all@ == Self::catalog(),
    {
        let all: &'static [DelayType] = &[
            DelayType::Simple,
            DelayType::PingPong,
            DelayType::Tape,
            DelayType::MultiTap,
            DelayType::Slapback,
            DelayType::Analog,
            DelayType::Reverse,
            DelayType::Ducking,
            DelayType::Diffused,
            DelayType::Shimmer,
            DelayType::LoFi,
        ];
        assert(all@ =~= Self::catalog());
        all
    }

    /// The delay type at picker index `index`; `Simple` past the end of the catalogue.
    pub fn from_index(index: usize) -> (t: DelayType)
        ensures
            t == Self::spec_from_index(index as int),
    {
        let all = Self::all();
        if index < all.len() {
            all[index]
        } else {
            DelayType::Simple
        }
    }

    /// The picker index of this delay type: its first position in `all()`.
    pub fn index(&self) -> (i: usize)
        ensures
            i as int == self.spec_index(),
            Self::catalog()[i as int] == *self,
    {
        let all = Self::all();
        proof {
            Self::lemma_catalog_positions();
            assert(all@[self.spec_index()] == *self);
        }
        let mut i: usize = 0;
        while i < all.len()
            invariant
                all@ == Self::catalog(),
                all@.len() == 11,
                i <= all@.len(),
                all@[self.spec_index()] == *self,
                0 <= self.spec_index() < 11,
                forall|k: int| 0 <= k < 11 ==> (#[trigger] all@[k]).spec_index() == k,
                forall|j: int| 0 <= j < i ==> all@[j] != *self,
            decreases all.len() - i,
        {
            if all[i] == *self {
                return i;
            }
            i += 1;
        }
        0
    }
}

/// Reverb algorithm of the reverb effect.
#[derive(Debug, Clone, Copy, PartialEq, Eq, Structural)]
pub enum ReverbType {
    Hall,
    Room,
    Plate,
    Spring,
    Shimmer,
    Cathedral,
    Cave,
    Ambient,
    Gated,
    Reverse,
    Infinite,
}

pub open spec fn reverb_type_at(i: int) -> ReverbType {
    if i == 1 {
        ReverbType::Room
    } else if i == 2 {
        ReverbType::Plate
    } else if i == 3 {
        ReverbType::Spring
    } else if i == 4 {
        ReverbType::Shimmer
    } else if i == 5 {
        ReverbType::Cathedral
    } else if i == 6 {
        ReverbType::Cave
    } else if i == 7 {
        ReverbType::Ambient
    } else if i == 8 {
        ReverbType::Gated
    } else if i == 9 {
        ReverbType::Reverse
    } else if i == 10 {
        ReverbType::Infinite
    } else {
        ReverbType::Hall
    }
}

impl ReverbType {
    /// The catalogue in picker order: the reverb type at position `i` is the one that
    /// index `i` selects.
    pub open spec fn catalog() -> Seq<ReverbType> {
        Seq::new(11, |i: int| reverb_type_at(i))
    }

    /// What `from_index` gives: the catalogue entry, or `Hall` past its end.
    pub open spec fn spec_from_index(i: int) -> ReverbType {
        if 0 <= i < 11 {
            Self::catalog()[i]
        } else {
            ReverbType::Hall
        }
    }

    /// The position of a reverb type in the catalogue.
    pub open spec fn spec_index(self) -> int {
        match self {
            ReverbType::Hall => 0,
            ReverbType::Room => 1,
            ReverbType::Plate => 2,
            ReverbType::Spring => 3,
            ReverbType::Shimmer => 4,
            ReverbType::Cathedral => 5,
            ReverbType::Cave => 6,
            ReverbType::Ambient => 7,
            ReverbType::Gated => 8,
            ReverbType::Reverse => 9,
            ReverbType::Infinite => 10,
        }
    }

    /// The label the picker shows for a reverb type.
    pub open spec fn spec_display_name(self) -> Seq<char> {
        match self {
            ReverbType::Hall => "Hall"@,
            ReverbType::Room => "Room"@,
            ReverbType::Plate => "Plate"@,
            ReverbType::Spring => "Spring"@,
            ReverbType::Shimmer => "Shimmer"@,
            ReverbType::Cathedral => "Cathedral"@,
            ReverbType::Cave => "Cave"@,
            ReverbType::Ambient => "Ambient"@,
            ReverbType::Gated => "Gated"@,
            ReverbType::Reverse => "Reverse"@,
            ReverbType::Infinite => "Infinite"@,
        }
    }

    /// Every reverb type sits at its own index, and each index below 11 holds the
    /// reverb type whose index it is.
    pub proof fn lemma_catalog_positions()
        ensures
            Self::catalog().len() == 11,
            forall|t: ReverbType|
                0 <= #[trigger] t.spec_index() < 11 && Self::catalog()[t.spec_index()] == t,
            forall|i: int| 0 <= i < 11 ==> (#[trigger] Self::catalog()[i]).spec_index() == i,
    {
    }

    /// Turning a reverb type into its index and back gives the same reverb type.
    pub proof fn lemma_index_round_trip(t: ReverbType)
        ensures
            0 <= t.spec_index() < 11,
            Self::spec_from_index(t.spec_index()) == t,
            Self::catalog().contains(t),
    {
        Self::lemma_catalog_positions();
        assert(Self::catalog()[t.spec_index()] == t);
    }

    /// Every index below 11 selects a reverb type whose index is that index again,
    /// so no two positions of the catalogue hold the same reverb type.
    pub proof fn lemma_from_index_round_trip(i: int)
        requires
            0 <= i < 11,
        ensures
            Self::spec_from_index(i).spec_index() == i,
            forall|j: int| 0 <= j < 11 && j != i ==> Self::catalog()[j] != Self::catalog()[i],
    {
        Self::lemma_catalog_positions();
        assert forall|j: int| 0 <= j < 11 && j != i implies Self::catalog()[j] != Self::catalog()[i] by {
            assert(Self::catalog()[j].spec_index() == j);
            assert(Self::catalog()[i].spec_index() == i);
        }
    }

    /// The reverb types in picker order, as listed: Hall, Room, Plate, Spring, Shimmer, Cathedral, Cave, Ambient, Gated, Reverse, Infinite;
    /// with these labels; and every index outside the list selects `Hall`.
    pub proof fn lemma_catalog_contents()
        ensures
            Self::catalog() == seq![ReverbType::Hall, ReverbType::Room, ReverbType::Plate, ReverbType::Spring, ReverbType::Shimmer, ReverbType::Cathedral, ReverbType::Cave, ReverbType::Ambient, ReverbType::Gated, ReverbType::Reverse, ReverbType::Infinite],
            Seq::new(11, |i: int| Self::catalog()[i].spec_display_name()) == seq!["Hall"@, "Room"@, "Plate"@, "Spring"@, "Shimmer"@, "Cathedral"@, "Cave"@, "Ambient"@, "Gated"@, "Reverse"@, "Infinite"@],
            forall|i: int| !(0 <= i < 11) ==> #[trigger] Self::spec_from_index(i) == ReverbType::Hall,
    {
        assert(Self::catalog() =~= seq![ReverbType::Hall, ReverbType::Room, ReverbType::Plate, ReverbType::Spring, ReverbType::Shimmer, ReverbType::Cathedral, ReverbType::Cave, ReverbType::Ambient, ReverbType::Gated, ReverbType::Reverse, ReverbType::Infinite]);
        assert(Seq::new(11, |i: int| Self::catalog()[i].spec_display_name()) =~= seq!["Hall"@, "Room"@, "Plate"@, "Spring"@, "Shimmer"@, "Cathedral"@, "Cave"@, "Ambient"@, "Gated"@, "Reverse"@, "Infinite"@]);
    }

    /// The label the picker shows for this reverb type.
    pub fn display_name(&self) -> (name: &'static str)
        ensures
            name@ == self.spec_display_name(),
    {
        match self {
            ReverbType::Hall => "Hall",
            ReverbType::Room => "Room",
            ReverbType::Plate => "Plate",
            ReverbType::Spring => "Spring",
            ReverbType::Shimmer => "Shimmer",
            ReverbType::Cathedral => "Cathedral",
            ReverbType::Cave => "Cave",
            ReverbType::Ambient => "Ambient",
            ReverbType::Gated => "Gated",
            ReverbType::Reverse => "Reverse",
            ReverbType::Infinite => "Infinite",
        }
    }

    /// Every reverb type, in picker order.
    pub fn all() -> (all: &'static [ReverbType])
        ensures
            all@ == Self::catalog(),
    {
        let all: &'static [ReverbType] = &[
            ReverbType::Hall,
            ReverbType::Room,
            ReverbType::Plate,
            ReverbType::Spring,
            ReverbType::Shimmer,
            ReverbType::Cathedral,
            ReverbType::Cave,
            ReverbType::Ambient,
            ReverbType::Gated,
            ReverbType::Reverse,
            ReverbType::Infinite,
        ];
        assert(all@ =~= Self::catalog());
        all
    }

    /// The reverb type at picker index `index`; `Hall` past the end of the catalogue.
    pub fn from_index(index: usize) -> (t: ReverbType)
        ensures
            t == Self::spec_from_index(index as int),
    {
        let all = Self::all();
        if index < all.len() {
            all[index]
        } else {
            ReverbType::Hall
        }
    }

    /// The picker index of this reverb type: its first position in `all()`.
    pub fn index(&self) -> (i: usize)
        ensures
            i as int == self.spec_index(),
            Self::catalog()[i as int] == *self,
    {
        let all = Self::all();
        proof {
            Self::lemma_catalog_positions();
            assert(all@[self.spec_index()] == *self);
        }
        let mut i: usize = 0;
        while i < all.len()
            invariant
                all@ == Self::catalog(),
                all@.len() == 11,
                i <= all@.len(),
                all@[self.spec_index()] == *self,
                0 <= self.spec_index() < 11,
                forall|k: int| 0 <= k < 11 ==> (#[trigger] all@[k]).spec_index() == k,
                forall|j: int| 0 <= j < i ==> all@[j] != *self,
            decreases all.len() - i,
        {
            if all[i] == *self {
                return i;
            }
            i += 1;
        }
        0
    }
}

/// Shaping curve of the distortion effect.
#[derive(Debug, Clone, Copy, PartialEq, Eq, Structural)]
pub enum DistortionType {
    SoftClip,
    HardClip,
    Tube,
    Fuzz,
    Bitcrush,
    Tape,
    Diode,
    Fold,
    /// Transparent mastering soft-knee clip: linear below 0.9, gentle tanh above.
    SoftKnee,
    /// 50/50 tanh + hard-clip blend: `0.5*tanh(x) + 0.5*clamp(x,-1,1)`.
    TanhClip,
}

pub open spec fn distortion_type_at(i: int) -> DistortionType {
    if i == 1 {
        DistortionType::HardClip
    } else if i == 2 {
        DistortionType::Tube
    } else if i == 3 {
        DistortionType::Fuzz
    } else if i == 4 {
        DistortionType::Bitcrush
    } else if i == 5 {
        DistortionType::Tape
    } else if i == 6 {
        DistortionType::Diode
    } else if i == 7 {
        DistortionType::Fold
    } else if i == 8 {
        DistortionType::SoftKnee
    } else if i == 9 {
        DistortionType::TanhClip
    } else {
        DistortionType::SoftClip
    }
}

impl DistortionType {
    /// The catalogue in picker order: the distortion type at position `i` is the one that
    /// index `i` selects.
    pub open spec fn catalog() -> Seq<DistortionType> {
        Seq::new(10, |i: int| distortion_type_at(i))
    }

    /// What `from_index` gives: the catalogue entry, or `SoftClip` past its end.
    pub open spec fn spec_from_index(i: int) -> DistortionType {
        if 0 <= i < 10 {
            Self::catalog()[i]
        } else {
            DistortionType::SoftClip
        }
    }

    /// The position of a distortion type in the catalogue.
    pub open spec fn spec_index(self) -> int {
        match self {
            DistortionType::SoftClip => 0,
            DistortionType::HardClip => 1,
            DistortionType::Tube => 2,
            DistortionType::Fuzz => 3,
            DistortionType::Bitcrush => 4,
            DistortionType::Tape => 5,
            DistortionType::Diode => 6,
            DistortionType::Fold => 7,
            DistortionType::SoftKnee => 8,
            DistortionType::TanhClip => 9,
        }
    }

    /// The label the picker shows for a distortion type.
    pub open spec fn spec_display_name(self) -> Seq<char> {
        match self {
            DistortionType::SoftClip => "Soft Clip"@,
            DistortionType::HardClip => "Hard Clip"@,
            DistortionType::Tube => "Tube"@,
            DistortionType::Fuzz => "Fuzz"@,
            DistortionType::Bitcrush => "Bitcrush"@,
            DistortionType::Tape => "Tape"@,
            DistortionType::Diode => "Diode"@,
            DistortionType::Fold => "Fold"@,
            DistortionType::SoftKnee => "Soft Knee"@,
            DistortionType::TanhClip => "Tanh Clip"@,
        }
    }

    /// Every distortion type sits at its own index, and each index below 10 holds the
    /// distortion type whose index it is.
    pub proof fn lemma_catalog_positions()
        ensures
            Self::catalog().len() == 10,
            forall|t: DistortionType|
                0 <= #[trigger] t.spec_index() < 10 && Self::catalog()[t.spec_index()] == t,
            forall|i: int| 0 <= i < 10 ==> (#[trigger] Self::catalog()[i]).spec_index() == i,
    {
    }

    /// Turning a distortion type into its index and back gives the same distortion type.
    pub proof fn lemma_index_round_trip(t: DistortionType)
        ensures
            0 <= t.spec_index() < 10,
            Self::spec_from_index(t.spec_index()) == t,
            Self::catalog().contains(t),
    {
        Self::lemma_catalog_positions();
        assert(Self::catalog()[t.spec_index()] == t);
    }

    /// Every index below 10 selects a distortion type whose index is that index again,
    /// so no two positions of the catalogue hold the same distortion type.
    pub proof fn lemma_from_index_round_trip(i: int)
        requires
            0 <= i < 10,
        ensures
            Self::spec_from_index(i).spec_index() == i,
            forall|j: int| 0 <= j < 10 && j != i ==> Self::catalog()[j] != Self::catalog()[i],
    {
        Self::lemma_catalog_positions();
        assert forall|j: int| 0 <= j < 10 && j != i implies Self::catalog()[j] != Self::catalog()[i] by {
            assert(Self::catalog()[j].spec_index() == j);
            assert(Self::catalog()[i].spec_index() == i);
        }
    }

    /// The distortion types in picker order, as listed: SoftClip, HardClip, Tube, Fuzz, Bitcrush, Tape, Diode, Fold, SoftKnee, TanhClip;
    /// with these labels; and every index outside the list selects `SoftClip`.
    pub proof fn lemma_catalog_contents()
        ensures
            Self::catalog() == seq![DistortionType::SoftClip, DistortionType::HardClip, DistortionType::Tube, DistortionType::Fuzz, DistortionType::Bitcrush, DistortionType::Tape, DistortionType::Diode, DistortionType::Fold, DistortionType::SoftKnee, DistortionType::TanhClip],
            Seq::new(10, |i: int| Self::catalog()[i].spec_display_name()) == seq!["Soft Clip"@, "Hard Clip"@, "Tube"@, "Fuzz"@, "Bitcrush"@, "Tape"@, "Diode"@, "Fold"@, "Soft Knee"@, "Tanh Clip"@],
            forall|i: int| !(0 <= i < 10) ==> #[trigger] Self::spec_from_index(i) == DistortionType::SoftClip,
    {
        assert(Self::catalog() =~= seq![DistortionType::SoftClip, DistortionType::HardClip, DistortionType::Tube, DistortionType::Fuzz, DistortionType::Bitcrush, DistortionType::Tape, DistortionType::Diode, DistortionType::Fold, DistortionType::SoftKnee, DistortionType::TanhClip]);
        assert(Seq::new(10, |i: int| Self::catalog()[i].spec_display_name()) =~= seq!["Soft Clip"@, "Hard Clip"@, "Tube"@, "Fuzz"@, "Bitcrush"@, "Tape"@, "Diode"@, "Fold"@, "Soft Knee"@, "Tanh Clip"@]);
    }

    /// The label the picker shows for this distortion type.
    pub fn display_name(&self) -> (name: &'static str)
        ensures
            name@ == self.spec_display_name(),
    {
        match self {
            DistortionType::SoftClip => "Soft Clip",
            DistortionType::HardClip => "Hard Clip",
            DistortionType::Tube => "Tube",
            DistortionType::Fuzz => "Fuzz",
            DistortionType::Bitcrush => "Bitcrush",
            DistortionType::Tape => "Tape",
            DistortionType::Diode => "Diode",
            DistortionType::Fold => "Fold",
            DistortionType::SoftKnee => "Soft Knee",
            DistortionType::TanhClip => "Tanh Clip",
        }
    }

    /// Every distortion type, in picker order.
    pub fn all() -> (all: &'static [DistortionType])
        ensures
            all@ == Self::catalog(),
    {
        let all: &'static [DistortionType] = &[
            DistortionType::SoftClip,
            DistortionType::HardClip,
            DistortionType::Tube,
            DistortionType::Fuzz,
            DistortionType::Bitcrush,
            DistortionType::Tape,
            DistortionType::Diode,
            DistortionType::Fold,
            DistortionType::SoftKnee,
            DistortionType::TanhClip,
        ];
        assert(all@ =~= Self::catalog());
        all
    }

    /// The distortion type at picker index `index`; `SoftClip` past the end of the catalogue.
    pub fn from_index(index: usize) -> (t: DistortionType)
        ensures
            t == Self::spec_from_index(index as int),
    {
        let all = Self::all();
        if index < all.len() {
            all[index]
        } else {
            DistortionType::SoftClip
        }
    }

    /// The picker index of this distortion type: its first position in `all()`.
    pub fn index(&self) -> (i: usize)
        ensures
            i as int == self.spec_index(),
            Self::catalog()[i as int] == *self,
    {
        let all = Self::all();
        proof {
            Self::lemma_catalog_positions();
            assert(all@[self.spec_index()] == *self);
        }
        let mut i: usize = 0;
        while i < all.len()
            invariant
                all@ == Self::catalog(),
                all@.len() == 10,
                i <= all@.len(),
                all@[self.spec_index()] == *self,
                0 <= self.spec_index() < 10,
                forall|k: int| 0 <= k < 10 ==> (#[trigger] all@[k]).spec_index() == k,
                forall|j: int| 0 <= j < i ==> all@[j] != *self,
            decreases all.len() - i,
        {
            if all[i] == *self {
                return i;
            }
            i += 1;
        }
        0
    }
}

} // verus!
