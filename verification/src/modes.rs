use vstd::prelude::*;

verus! {

/// Compressor character.
#[derive(Debug, Clone, Copy, PartialEq, Eq, Structural)]
pub enum CompressorMode {
    /// Clean, transparent (SSL-style).
    Vca,
    /// Program-dependent, slow (LA-2A style).
    Opto,
    /// Fast, aggressive (1176 style).
    Fet,
    /// 3-band compression.
    Multiband,
    /// Feed-forward peak bus compressor: hard knee, no lookahead.
    Bus,
}

pub open spec fn compressor_mode_at(i: int) -> CompressorMode {
    if i == 1 {
        CompressorMode::Opto
    } else if i == 2 {
        CompressorMode::Fet
    } else if i == 3 {
        CompressorMode::Multiband
    } else if i == 4 {
        CompressorMode::Bus
    } else {
        CompressorMode::Vca
    }
}

impl CompressorMode {
    /// The compressor modes in index order.
    pub open spec fn catalog() -> Seq<CompressorMode> {
        Seq::new(5, |i: int| compressor_mode_at(i))
    }

    /// What `from_index` gives: the compressor mode at that index, or `Vca` past the end.
    pub open spec fn spec_from_index(i: int) -> CompressorMode {
        if 0 <= i < 5 { Self::catalog()[i] } else { CompressorMode::Vca }
    }

    /// The index of a compressor mode.
    pub open spec fn spec_index(self) -> int {
        match self {
            CompressorMode::Vca => 0,
            CompressorMode::Opto => 1,
            CompressorMode::Fet => 2,
            CompressorMode::Multiband => 3,
            CompressorMode::Bus => 4,
        }
    }

    /// The label of a compressor mode.
    pub open spec fn spec_name(self) -> Seq<char> {
        match self {
            CompressorMode::Vca => "VCA"@,
            CompressorMode::Opto => "Opto"@,
            CompressorMode::Fet => "FET"@,
            CompressorMode::Multiband => "Multi"@,
            CompressorMode::Bus => "Bus"@,
        }
    }

    /// Every compressor mode sits at its own index, and each index below 5 holds the
    /// compressor mode whose index it is.
    pub proof fn lemma_catalog_positions()
        ensures
            Self::catalog().len() == 5,
            forall|t: CompressorMode|
                0 <= #[trigger] t.spec_index() < 5 && Self::catalog()[t.spec_index()] == t,
            forall|i: int| 0 <= i < 5 ==> (#[trigger] Self::catalog()[i]).spec_index() == i,
    {
    }

    /// Turning a compressor mode into its index and back gives the same compressor mode.
    pub proof fn lemma_index_round_trip(t: CompressorMode)
        ensures
            0 <= t.spec_index() < 5,
            Self::spec_from_index(t.spec_index()) == t,
    {
        Self::lemma_catalog_positions();
    }

    /// Every index below 5 selects a compressor mode whose index is that index again.
    pub proof fn lemma_from_index_round_trip(i: int)
        requires
            0 <= i < 5,
        ensures
            Self::spec_from_index(i).spec_index() == i,
    {
        Self::lemma_catalog_positions();
    }

    /// The compressor modes in picker order, as listed: Vca, Opto, Fet, Multiband, Bus;
    /// with these labels; and every index outside the list selects `Vca`.
    pub proof fn lemma_catalog_contents()
        ensures
            Self::catalog() == seq![CompressorMode::Vca, CompressorMode::Opto, CompressorMode::Fet, CompressorMode::Multiband, CompressorMode::Bus],
            Seq::new(5, |i: int| Self::catalog()[i].spec_name()) == seq!["VCA"@, "Opto"@, "FET"@, "Multi"@, "Bus"@],
            forall|i: int| !(0 <= i < 5) ==> #[trigger] Self::spec_from_index(i) == CompressorMode::Vca,
    {
        assert(Self::catalog() =~= seq![CompressorMode::Vca, CompressorMode::Opto, CompressorMode::Fet, CompressorMode::Multiband, CompressorMode::Bus]);
        assert(Seq::new(5, |i: int| Self::catalog()[i].spec_name()) =~= seq!["VCA"@, "Opto"@, "FET"@, "Multi"@, "Bus"@]);
    }

    /// The compressor mode at index `i`; `Vca` for any other index.
    pub fn from_index(i: usize) -> (t: CompressorMode)
        ensures
            t == Self::spec_from_index(i as int),
    {
        match i {
            1 => CompressorMode::Opto,
            2 => CompressorMode::Fet,
            3 => CompressorMode::Multiband,
            4 => CompressorMode::Bus,
            _ => CompressorMode::Vca,
        }
    }

    /// The label of this compressor mode.
    pub fn name(&self) -> (name: &'static str)
        ensures
            name@ == self.spec_name(),
    {
        match self {
            CompressorMode::Vca => "VCA",
            CompressorMode::Opto => "Opto",
            CompressorMode::Fet => "FET",
            CompressorMode::Multiband => "Multi",
            CompressorMode::Bus => "Bus",
        }
    }

    /// The labels of all compressor modes, in index order.
    pub fn all_names() -> (names: &'static [&'static str])
        ensures
            names@.len() == 5,
            forall|i: int| 0 <= i < 5 ==> #[trigger] names@[i]@ == Self::catalog()[i].spec_name(),
    {
        let names: &'static [&'static str] = &["VCA", "Opto", "FET", "Multi", "Bus"];
        proof {
            Self::lemma_catalog_positions();
            assert(Self::catalog()[0] == CompressorMode::Vca);
            assert(Self::catalog()[1] == CompressorMode::Opto);
            assert(Self::catalog()[2] == CompressorMode::Fet);
            assert(Self::catalog()[3] == CompressorMode::Multiband);
            assert(Self::catalog()[4] == CompressorMode::Bus);
        }
        names
    }
}

/// Limiter character.
#[derive(Debug, Clone, Copy, PartialEq, Eq, Structural)]
pub enum LimiterMode {
    /// Hard ceiling with lookahead.
    Brickwall,
    /// Gentle saturation curve.
    SoftClip,
    /// Multi-stage loudness maximizer.
    Maximizer,
}

pub open spec fn limiter_mode_at(i: int) -> LimiterMode {
    if i == 1 {
        LimiterMode::SoftClip
    } else if i == 2 {
        LimiterMode::Maximizer
    } else {
        LimiterMode::Brickwall
    }
}

impl LimiterMode {
    /// The limiter modes in index order.
    pub open spec fn catalog() -> Seq<LimiterMode> {
        Seq::new(3, |i: int| limiter_mode_at(i))
    }

    /// What `from_index` gives: the limiter mode at that index, or `Brickwall` past the end.
    pub open spec fn spec_from_index(i: int) -> LimiterMode {
        if 0 <= i < 3 { Self::catalog()[i] } else { LimiterMode::Brickwall }
    }

    /// The index of a limiter mode.
    pub open spec fn spec_index(self) -> int {
        match self {
            LimiterMode::Brickwall => 0,
            LimiterMode::SoftClip => 1,
            LimiterMode::Maximizer => 2,
        }
    }

    /// The label of a limiter mode.
    pub open spec fn spec_name(self) -> Seq<char> {
        match self {
            LimiterMode::Brickwall => "Brick"@,
            LimiterMode::SoftClip => "Soft"@,
            LimiterMode::Maximizer => "Max"@,
        }
    }

    /// Every limiter mode sits at its own index, and each index below 3 holds the
    /// limiter mode whose index it is.
    pub proof fn lemma_catalog_positions()
        ensures
            Self::catalog().len() == 3,
            forall|t: LimiterMode|
                0 <= #[trigger] t.spec_index() < 3 && Self::catalog()[t.spec_index()] == t,
            forall|i: int| 0 <= i < 3 ==> (#[trigger] Self::catalog()[i]).spec_index() == i,
    {
    }

    /// Turning a limiter mode into its index and back gives the same limiter mode.
    pub proof fn lemma_index_round_trip(t: LimiterMode)
        ensures
            0 <= t.spec_index() < 3,
            Self::spec_from_index(t.spec_index()) == t,
    {
        Self::lemma_catalog_positions();
    }

    /// Every index below 3 selects a limiter mode whose index is that index again.
    pub proof fn lemma_from_index_round_trip(i: int)
        requires
            0 <= i < 3,
        ensures
            Self::spec_from_index(i).spec_index() == i,
    {
        Self::lemma_catalog_positions();
    }

    /// The limiter modes in picker order, as listed: Brickwall, SoftClip, Maximizer;
    /// with these labels; and every index outside the list selects `Brickwall`.
    pub proof fn lemma_catalog_contents()
        ensures
            Self::catalog() == seq![LimiterMode::Brickwall, LimiterMode::SoftClip, LimiterMode::Maximizer],
            Seq::new(3, |i: int| Self::catalog()[i].spec_name()) == seq!["Brick"@, "Soft"@, "Max"@],
            forall|i: int| !(0 <= i < 3) ==> #[trigger] Self::spec_from_index(i) == LimiterMode::Brickwall,
    {
        assert(Self::catalog() =~= seq![LimiterMode::Brickwall, LimiterMode::SoftClip, LimiterMode::Maximizer]);
        assert(Seq::new(3, |i: int| Self::catalog()[i].spec_name()) =~= seq!["Brick"@, "Soft"@, "Max"@]);
    }

    /// The limiter mode at index `i`; `Brickwall` for any other index.
    pub fn from_index(i: usize) -> (t: LimiterMode)
        ensures
            t == Self::spec_from_index(i as int),
    {
        match i {
            1 => LimiterMode::SoftClip,
            2 => LimiterMode::Maximizer,
            _ => LimiterMode::Brickwall,
        }
    }

    /// The label of this limiter mode.
    pub fn name(&self) -> (name: &'static str)
        ensures
            name@ == self.spec_name(),
    {
        match self {
            LimiterMode::Brickwall => "Brick",
            LimiterMode::SoftClip => "Soft",
            LimiterMode::Maximizer => "Max",
        }
    }

    /// The labels of all limiter modes, in index order.
    pub fn all_names() -> (names: &'static [&'static str])
        ensures
            names@.len() == 3,
            forall|i: int| 0 <= i < 3 ==> #[trigger] names@[i]@ == Self::catalog()[i].spec_name(),
    {
        let names: &'static [&'static str] = &["Brick", "Soft", "Max"];
        proof {
            Self::lemma_catalog_positions();
            assert(Self::catalog()[0] == LimiterMode::Brickwall);
            assert(Self::catalog()[1] == LimiterMode::SoftClip);
            assert(Self::catalog()[2] == LimiterMode::Maximizer);
        }
        names
    }
}

/// Expander character.
#[derive(Debug, Clone, Copy, PartialEq, Eq, Structural)]
pub enum ExpanderMode {
    /// Hard gate with range.
    Gate,
    /// Soft downward expansion.
    Gentle,
    /// Ducks loud signals.
    Ducker,
}

pub open spec fn expander_mode_at(i: int) -> ExpanderMode {
    if i == 1 {
        ExpanderMode::Gentle
    } else if i == 2 {
        ExpanderMode::Ducker
    } else {
        ExpanderMode::Gate
    }
}

impl ExpanderMode {
    /// The expander modes in index order.
    pub open spec fn catalog() -> Seq<ExpanderMode> {
        Seq::new(3, |i: int| expander_mode_at(i))
    }

    /// What `from_index` gives: the expander mode at that index, or `Gate` past the end.
    pub open spec fn spec_from_index(i: int) -> ExpanderMode {
        if 0 <= i < 3 { Self::catalog()[i] } else { ExpanderMode::Gate }
    }

    /// The index of a expander mode.
    pub open spec fn spec_index(self) -> int {
        match self {
            ExpanderMode::Gate => 0,
            ExpanderMode::Gentle => 1,
            ExpanderMode::Ducker => 2,
        }
    }

    /// The label of a expander mode.
    pub open spec fn spec_name(self) -> Seq<char> {
        match self {
            ExpanderMode::Gate => "Gate"@,
            ExpanderMode::Gentle => "Gentle"@,
            ExpanderMode::Ducker => "Ducker"@,
        }
    }

    /// Every expander mode sits at its own index, and each index below 3 holds the
    /// expander mode whose index it is.
    pub proof fn lemma_catalog_positions()
        ensures
            Self::catalog().len() == 3,
            forall|t: ExpanderMode|
                0 <= #[trigger] t.spec_index() < 3 && Self::catalog()[t.spec_index()] == t,
            forall|i: int| 0 <= i < 3 ==> (#[trigger] Self::catalog()[i]).spec_index() == i,
    {
    }

    /// Turning a expander mode into its index and back gives the same expander mode.
    pub proof fn lemma_index_round_trip(t: ExpanderMode)
        ensures
            0 <= t.spec_index() < 3,
            Self::spec_from_index(t.spec_index()) == t,
    {
        Self::lemma_catalog_positions();
    }

    /// Every index below 3 selects a expander mode whose index is that index again.
    pub proof fn lemma_from_index_round_trip(i: int)
        requires
            0 <= i < 3,
        ensures
            Self::spec_from_index(i).spec_index() == i,
    {
        Self::lemma_catalog_positions();
    }

    /// The expander modes in picker order, as listed: Gate, Gentle, Ducker;
    /// with these labels; and every index outside the list selects `Gate`.
    pub proof fn lemma_catalog_contents()
        ensures
            Self::catalog() == seq![ExpanderMode::Gate, ExpanderMode::Gentle, ExpanderMode::Ducker],
            Seq::new(3, |i: int| Self::catalog()[i].spec_name()) == seq!["Gate"@, "Gentle"@, "Ducker"@],
            forall|i: int| !(0 <= i < 3) ==> #[trigger] Self::spec_from_index(i) == ExpanderMode::Gate,
    {
        assert(Self::catalog() =~= seq![ExpanderMode::Gate, ExpanderMode::Gentle, ExpanderMode::Ducker]);
        assert(Seq::new(3, |i: int| Self::catalog()[i].spec_name()) =~= seq!["Gate"@, "Gentle"@, "Ducker"@]);
    }

    /// The expander mode at index `i`; `Gate` for any other index.
    pub fn from_index(i: usize) -> (t: ExpanderMode)
        ensures
            t == Self::spec_from_index(i as int),
    {
        match i {
            1 => ExpanderMode::Gentle,
            2 => ExpanderMode::Ducker,
            _ => ExpanderMode::Gate,
        }
    }

    /// The label of this expander mode.
    pub fn name(&self) -> (name: &'static str)
        ensures
            name@ == self.spec_name(),
    {
        match self {
            ExpanderMode::Gate => "Gate",
            ExpanderMode::Gentle => "Gentle",
            ExpanderMode::Ducker => "Ducker",
        }
    }

    /// The labels of all expander modes, in index order.
    pub fn all_names() -> (names: &'static [&'static str])
        ensures
            names@.len() == 3,
            forall|i: int| 0 <= i < 3 ==> #[trigger] names@[i]@ == Self::catalog()[i].spec_name(),
    {
        let names: &'static [&'static str] = &["Gate", "Gentle", "Ducker"];
        proof {
            Self::lemma_catalog_positions();
            assert(Self::catalog()[0] == ExpanderMode::Gate);
            assert(Self::catalog()[1] == ExpanderMode::Gentle);
            assert(Self::catalog()[2] == ExpanderMode::Ducker);
        }
        names
    }
}

/// Motion of the auto-panner.
#[derive(Debug, Clone, Copy, PartialEq, Eq, Structural)]
pub enum AutoPanMode {
    /// Sine/triangle/square LFO.
    Classic,
    /// Leslie-style rotation with doppler.
    Spin,
    /// Ball bouncing between L/R.
    Bounce,
    /// Sample-and-hold random positions.
    RandomSH,
    /// Pan follows input dynamics.
    Envelope,
    /// Micro-delay modulation for stereo movement.
    Haas,
    /// Combined volume + pan modulation.
    TremoloPan,
}

pub open spec fn auto_pan_mode_at(i: int) -> AutoPanMode {
    if i == 1 {
        AutoPanMode::Spin
    } else if i == 2 {
        AutoPanMode::Bounce
    } else if i == 3 {
        AutoPanMode::RandomSH
    } else if i == 4 {
        AutoPanMode::Envelope
    } else if i == 5 {
        AutoPanMode::Haas
    } else if i == 6 {
        AutoPanMode::TremoloPan
    } else {
        AutoPanMode::Classic
    }
}

impl AutoPanMode {
    /// The catalogue in picker order: the auto-pan mode at position `i` is the one that
    /// index `i` selects.
    pub open spec fn catalog() -> Seq<AutoPanMode> {
        Seq::new(7, |i: int| auto_pan_mode_at(i))
    }

    /// What `from_index` gives: the catalogue entry, or `Classic` past its end.
    pub open spec fn spec_from_index(i: int) -> AutoPanMode {
        if 0 <= i < 7 {
            Self::catalog()[i]
        } else {
            AutoPanMode::Classic
        }
    }

    /// The position of a auto-pan mode in the catalogue.
    pub open spec fn spec_index(self) -> int {
        match self {
            AutoPanMode::Classic => 0,
            AutoPanMode::Spin => 1,
            AutoPanMode::Bounce => 2,
            AutoPanMode::RandomSH => 3,
            AutoPanMode::Envelope => 4,
            AutoPanMode::Haas => 5,
            AutoPanMode::TremoloPan => 6,
        }
    }

    /// The label the picker shows for a auto-pan mode.
    pub open spec fn spec_display_name(self) -> Seq<char> {
        match self {
            AutoPanMode::Classic => "Classic"@,
            AutoPanMode::Spin => "Spin"@,
            AutoPanMode::Bounce => "Bounce"@,
            AutoPanMode::RandomSH => "Random S&H"@,
            AutoPanMode::Envelope => "Envelope"@,
            AutoPanMode::Haas => "Haas"@,
            AutoPanMode::TremoloPan => "Trem-Pan"@,
        }
    }

    /// Every auto-pan mode sits at its own index, and each index below 7 holds the
    /// auto-pan mode whose index it is.
    pub proof fn lemma_catalog_positions()
        ensures
            Self::catalog().len() == 7,
            forall|t: AutoPanMode|
                0 <= #[trigger] t.spec_index() < 7 && Self::catalog()[t.spec_index()] == t,
            forall|i: int| 0 <= i < 7 ==> (#[trigger] Self::catalog()[i]).spec_index() == i,
    {
    }

    /// Turning a auto-pan mode into its index and back gives the same auto-pan mode.
    pub proof fn lemma_index_round_trip(t: AutoPanMode)
        ensures
            0 <= t.spec_index() < 7,
            Self::spec_from_index(t.spec_index()) == t,
            Self::catalog().contains(t),
    {
        Self::lemma_catalog_positions();
        assert(Self::catalog()[t.spec_index()] == t);
    }

    /// Every index below 7 selects a auto-pan mode whose index is that index again,
    /// so no two positions of the catalogue hold the same auto-pan mode.
    pub proof fn lemma_from_index_round_trip(i: int)
        requires
            0 <= i < 7,
        ensures
            Self::spec_from_index(i).spec_index() == i,
            forall|j: int| 0 <= j < 7 && j != i ==> Self::catalog()[j] != Self::catalog()[i],
    {
        Self::lemma_catalog_positions();
        assert forall|j: int| 0 <= j < 7 && j != i implies Self::catalog()[j] != Self::catalog()[i] by {
            assert(Self::catalog()[j].spec_index() == j);
            assert(Self::catalog()[i].spec_index() == i);
        }
    }

    /// The auto-pan modes in picker order, as listed: Classic, Spin, Bounce, RandomSH, Envelope, Haas, TremoloPan;
    /// with these labels; and every index outside the list selects `Classic`.
    pub proof fn lemma_catalog_contents()
        ensures
            Self::catalog() == seq![AutoPanMode::Classic, AutoPanMode::Spin, AutoPanMode::Bounce, AutoPanMode::RandomSH, AutoPanMode::Envelope, AutoPanMode::Haas, AutoPanMode::TremoloPan],
            Seq::new(7, |i: int| Self::catalog()[i].spec_display_name()) == seq!["Classic"@, "Spin"@, "Bounce"@, "Random S&H"@, "Envelope"@, "Haas"@, "Trem-Pan"@],
            forall|i: int| !(0 <= i < 7) ==> #[trigger] Self::spec_from_index(i) == AutoPanMode::Classic,
    {
        assert(Self::catalog() =~= seq![AutoPanMode::Classic, AutoPanMode::Spin, AutoPanMode::Bounce, AutoPanMode::RandomSH, AutoPanMode::Envelope, AutoPanMode::Haas, AutoPanMode::TremoloPan]);
        assert(Seq::new(7, |i: int| Self::catalog()[i].spec_display_name()) =~= seq!["Classic"@, "Spin"@, "Bounce"@, "Random S&H"@, "Envelope"@, "Haas"@, "Trem-Pan"@]);
    }

    /// The label the picker shows for this auto-pan mode.
    pub fn display_name(&self) -> (name: &'static str)
        ensures
            name@ == self.spec_display_name(),
    {
        match self {
            AutoPanMode::Classic => "Classic",
            AutoPanMode::Spin => "Spin",
            AutoPanMode::Bounce => "Bounce",
            AutoPanMode::RandomSH => "Random S&H",
            AutoPanMode::Envelope => "Envelope",
            AutoPanMode::Haas => "Haas",
            AutoPanMode::TremoloPan => "Trem-Pan",
        }
    }

    /// Every auto-pan mode, in picker order.
    pub fn all() -> (all: &'static [AutoPanMode])
        ensures
            all@ == Self::catalog(),
    {
        let all: &'static [AutoPanMode] = &[
            AutoPanMode::Classic,
            AutoPanMode::Spin,
            AutoPanMode::Bounce,
            AutoPanMode::RandomSH,
            AutoPanMode::Envelope,
            AutoPanMode::Haas,
            AutoPanMode::TremoloPan,
        ];
        assert(all@ =~= Self::catalog());
        all
    }

    /// The auto-pan mode at picker index `index`; `Classic` past the end of the catalogue.
    pub fn from_index(index: usize) -> (t: AutoPanMode)
        ensures
            t == Self::spec_from_index(index as int),
    {
        let all = Self::all();
        if index < all.len() {
            all[index]
        } else {
            AutoPanMode::Classic
        }
    }
}

impl AutoPanMode {
    /// The labels of all auto-pan modes, in catalogue order.
    pub fn all_names() -> (names: Vec<&'static str>)
        ensures
            names@.len() == 7,
            forall|i: int| 0 <= i < 7 ==> #[trigger] names@[i]@ == Self::catalog()[i].spec_display_name(),
    {
        let all = Self::all();
        let mut names: Vec<&'static str> = Vec::new();
        let mut i: usize = 0;
        while i < all.len()
            invariant
                all@ == Self::catalog(),
                all@.len() == 7,
                i <= all@.len(),
                names@.len() == i,
                forall|j: int| 0 <= j < i ==> #[trigger] names@[j]@ == all@[j].spec_display_name(),
            decreases all.len() - i,
        {
            names.push(all[i].display_name());
            i += 1;
        }
        names
    }
}

/// LFO waveform of the classic auto-pan mode.
#[derive(Debug, Clone, Copy, PartialEq, Eq, Structural)]
pub enum AutoPanWave {
    Sine,
    Triangle,
    Square,
}

pub open spec fn auto_pan_wave_at(i: int) -> AutoPanWave {
    if i == 1 {
        AutoPanWave::Triangle
    } else if i == 2 {
        AutoPanWave::Square
    } else {
        AutoPanWave::Sine
    }
}

impl AutoPanWave {
    /// The auto-pan waveforms in index order.
    pub open spec fn catalog() -> Seq<AutoPanWave> {
        Seq::new(3, |i: int| auto_pan_wave_at(i))
    }

    /// What `from_index` gives: the auto-pan waveform at that index, or `Sine` past the end.
    pub open spec fn spec_from_index(i: int) -> AutoPanWave {
        if 0 <= i < 3 { Self::catalog()[i] } else { AutoPanWave::Sine }
    }

    /// The index of a auto-pan waveform.
    pub open spec fn spec_index(self) -> int {
        match self {
            AutoPanWave::Sine => 0,
            AutoPanWave::Triangle => 1,
            AutoPanWave::Square => 2,
        }
    }

    /// The label of a auto-pan waveform.
    pub open spec fn spec_name(self) -> Seq<char> {
        match self {
            AutoPanWave::Sine => "Sine"@,
            AutoPanWave::Triangle => "Triangle"@,
            AutoPanWave::Square => "Square"@,
        }
    }

    /// Every auto-pan waveform sits at its own index, and each index below 3 holds the
    /// auto-pan waveform whose index it is.
    pub proof fn lemma_catalog_positions()
        ensures
            Self::catalog().len() == 3,
            forall|t: AutoPanWave|
                0 <= #[trigger] t.spec_index() < 3 && Self::catalog()[t.spec_index()] == t,
            forall|i: int| 0 <= i < 3 ==> (#[trigger] Self::catalog()[i]).spec_index() == i,
    {
    }

    /// Turning a auto-pan waveform into its index and back gives the same auto-pan waveform.
    pub proof fn lemma_index_round_trip(t: AutoPanWave)
        ensures
            0 <= t.spec_index() < 3,
            Self::spec_from_index(t.spec_index()) == t,
    {
        Self::lemma_catalog_positions();
    }

    /// Every index below 3 selects a auto-pan waveform whose index is that index again.
    pub proof fn lemma_from_index_round_trip(i: int)
        requires
            0 <= i < 3,
        ensures
            Self::spec_from_index(i).spec_index() == i,
    {
        Self::lemma_catalog_positions();
    }

    /// The auto-pan waveforms in picker order, as listed: Sine, Triangle, Square;
    /// with these labels; and every index outside the list selects `Sine`.
    pub proof fn lemma_catalog_contents()
        ensures
            Self::catalog() == seq![AutoPanWave::Sine, AutoPanWave::Triangle, AutoPanWave::Square],
            Seq::new(3, |i: int| Self::catalog()[i].spec_name()) == seq!["Sine"@, "Triangle"@, "Square"@],
            forall|i: int| !(0 <= i < 3) ==> #[trigger] Self::spec_from_index(i) == AutoPanWave::Sine,
    {
        assert(Self::catalog() =~= seq![AutoPanWave::Sine, AutoPanWave::Triangle, AutoPanWave::Square]);
        assert(Seq::new(3, |i: int| Self::catalog()[i].spec_name()) =~= seq!["Sine"@, "Triangle"@, "Square"@]);
    }

    /// The auto-pan waveform at index `i`; `Sine` for any other index.
    pub fn from_index(i: usize) -> (t: AutoPanWave)
        ensures
            t == Self::spec_from_index(i as int),
    {
        match i {
            1 => AutoPanWave::Triangle,
            2 => AutoPanWave::Square,
            _ => AutoPanWave::Sine,
        }
    }

    /// The labels of all auto-pan waveforms, in index order.
    pub fn all_names() -> (names: Vec<&'static str>)
        ensures
            names@.len() == 3,
            forall|i: int| 0 <= i < 3 ==> #[trigger] names@[i]@ == Self::catalog()[i].spec_name(),
    {
        let names: Vec<&'static str> = vec!["Sine", "Triangle", "Square"];
        proof {
            Self::lemma_catalog_positions();
            assert(Self::catalog()[0] == AutoPanWave::Sine);
            assert(Self::catalog()[1] == AutoPanWave::Triangle);
            assert(Self::catalog()[2] == AutoPanWave::Square);
        }
        names
    }
}

/// Playback style of the stutter effect.
#[derive(Debug, Clone, Copy, PartialEq, Eq, Structural)]
pub enum StutterMode {
    Stutter,
    Reverse,
    HalfSpeed,
    Scratch,
    Glitch,
}

pub open spec fn stutter_mode_at(i: int) -> StutterMode {
    if i == 1 {
        StutterMode::Reverse
    } else if i == 2 {
        StutterMode::HalfSpeed
    } else if i == 3 {
        StutterMode::Scratch
    } else if i == 4 {
        StutterMode::Glitch
    } else {
        StutterMode::Stutter
    }
}

impl StutterMode {
    /// The catalogue in picker order: the stutter mode at position `i` is the one that
    /// index `i` selects.
    pub open spec fn catalog() -> Seq<StutterMode> {
        Seq::new(5, |i: int| stutter_mode_at(i))
    }

    /// What `from_index` gives: the catalogue entry, or `Stutter` past its end.
    pub open spec fn spec_from_index(i: int) -> StutterMode {
        if 0 <= i < 5 {
            Self::catalog()[i]
        } else {
            StutterMode::Stutter
        }
    }

    /// The position of a stutter mode in the catalogue.
    pub open spec fn spec_index(self) -> int {
        match self {
            StutterMode::Stutter => 0,
            StutterMode::Reverse => 1,
            StutterMode::HalfSpeed => 2,
            StutterMode::Scratch => 3,
            StutterMode::Glitch => 4,
        }
    }

    /// The label the picker shows for a stutter mode.
    pub open spec fn spec_display_name(self) -> Seq<char> {
        match self {
            StutterMode::Stutter => "Stutter"@,
            StutterMode::Reverse => "Reverse"@,
            StutterMode::HalfSpeed => "Half Speed"@,
            StutterMode::Scratch => "Scratch"@,
            StutterMode::Glitch => "Glitch"@,
        }
    }

    /// Every stutter mode sits at its own index, and each index below 5 holds the
    /// stutter mode whose index it is.
    pub proof fn lemma_catalog_positions()
        ensures
            Self::catalog().len() == 5,
            forall|t: StutterMode|
                0 <= #[trigger] t.spec_index() < 5 && Self::catalog()[t.spec_index()] == t,
            forall|i: int| 0 <= i < 5 ==> (#[trigger] Self::catalog()[i]).spec_index() == i,
    {
    }

    /// Turning a stutter mode into its index and back gives the same stutter mode.
    pub proof fn lemma_index_round_trip(t: StutterMode)
        ensures
            0 <= t.spec_index() < 5,
            Self::spec_from_index(t.spec_index()) == t,
            Self::catalog().contains(t),
    {
        Self::lemma_catalog_positions();
        assert(Self::catalog()[t.spec_index()] == t);
    }

    /// Every index below 5 selects a stutter mode whose index is that index again,
    /// so no two positions of the catalogue hold the same stutter mode.
    pub proof fn lemma_from_index_round_trip(i: int)
        requires
            0 <= i < 5,
        ensures
            Self::spec_from_index(i).spec_index() == i,
            forall|j: int| 0 <= j < 5 && j != i ==> Self::catalog()[j] != Self::catalog()[i],
    {
        Self::lemma_catalog_positions();
        assert forall|j: int| 0 <= j < 5 && j != i implies Self::catalog()[j] != Self::catalog()[i] by {
            assert(Self::catalog()[j].spec_index() == j);
            assert(Self::catalog()[i].spec_index() == i);
        }
    }

    /// The stutter modes in picker order, as listed: Stutter, Reverse, HalfSpeed, Scratch, Glitch;
    /// with these labels; and every index outside the list selects `Stutter`.
    pub proof fn lemma_catalog_contents()
        ensures
            Self::catalog() == seq![StutterMode::Stutter, StutterMode::Reverse, StutterMode::HalfSpeed, StutterMode::Scratch, StutterMode::Glitch],
            Seq::new(5, |i: int| Self::catalog()[i].spec_display_name()) == seq!["Stutter"@, "Reverse"@, "Half Speed"@, "Scratch"@, "Glitch"@],
            forall|i: int| !(0 <= i < 5) ==> #[trigger] Self::spec_from_index(i) == StutterMode::Stutter,
    {
        assert(Self::catalog() =~= seq![StutterMode::Stutter, StutterMode::Reverse, StutterMode::HalfSpeed, StutterMode::Scratch, StutterMode::Glitch]);
        assert(Seq::new(5, |i: int| Self::catalog()[i].spec_display_name()) =~= seq!["Stutter"@, "Reverse"@, "Half Speed"@, "Scratch"@, "Glitch"@]);
    }

    /// The label the picker shows for this stutter mode.
    pub fn display_name(&self) -> (name: &'static str)
        ensures
            name@ == self.spec_display_name(),
    {
        match self {
            StutterMode::Stutter => "Stutter",
            StutterMode::Reverse => "Reverse",
            StutterMode::HalfSpeed => "Half Speed",
            StutterMode::Scratch => "Scratch",
            StutterMode::Glitch => "Glitch",
        }
    }

    /// Every stutter mode, in picker order.
    pub fn all() -> (all: &'static [StutterMode])
        ensures
            all@ == Self::catalog(),
    {
        let all: &'static [StutterMode] = &[
            StutterMode::Stutter,
            StutterMode::Reverse,
            StutterMode::HalfSpeed,
            StutterMode::Scratch,
            StutterMode::Glitch,
        ];
        assert(all@ =~= Self::catalog());
        all
    }

    /// The stutter mode at picker index `index`; `Stutter` past the end of the catalogue.
    pub fn from_index(index: usize) -> (t: StutterMode)
        ensures
            t == Self::spec_from_index(index as int),
    {
        let all = Self::all();
        if index < all.len() {
            all[index]
        } else {
            StutterMode::Stutter
        }
    }
}

impl StutterMode {
    /// The labels of all stutter modes, in catalogue order.
    pub fn all_names() -> (names: Vec<&'static str>)
        ensures
            names@.len() == 5,
            forall|i: int| 0 <= i < 5 ==> #[trigger] names@[i]@ == Self::catalog()[i].spec_display_name(),
    {
        let all = Self::all();
        let mut names: Vec<&'static str> = Vec::new();
        let mut i: usize = 0;
        while i < all.len()
            invariant
                all@ == Self::catalog(),
                all@.len() == 5,
                i <= all@.len(),
                names@.len() == i,
                forall|j: int| 0 <= j < i ==> #[trigger] names@[j]@ == all@[j].spec_display_name(),
            decreases all.len() - i,
        {
            names.push(all[i].display_name());
            i += 1;
        }
        names
    }
}

/// Response of the multi-mode filter.
#[derive(Debug, Clone, Copy, PartialEq, Eq, Structural)]
pub enum FilterMode {
    LowPass,
    HighPass,
    BandPass,
    Notch,
}

pub open spec fn filter_mode_at(i: int) -> FilterMode {
    if i == 1 {
        FilterMode::HighPass
    } else if i == 2 {
        FilterMode::BandPass
    } else if i == 3 {
        FilterMode::Notch
    } else {
        FilterMode::LowPass
    }
}

impl FilterMode {
    /// The catalogue in picker order: the filter mode at position `i` is the one that
    /// index `i` selects.
    pub open spec fn catalog() -> Seq<FilterMode> {
        Seq::new(4, |i: int| filter_mode_at(i))
    }

    /// What `from_index` gives: the catalogue entry, or `LowPass` past its end.
    pub open spec fn spec_from_index(i: int) -> FilterMode {
        if 0 <= i < 4 {
            Self::catalog()[i]
        } else {
            FilterMode::LowPass
        }
    }

    /// The position of a filter mode in the catalogue.
    pub open spec fn spec_index(self) -> int {
        match self {
            FilterMode::LowPass => 0,
            FilterMode::HighPass => 1,
            FilterMode::BandPass => 2,
            FilterMode::Notch => 3,
        }
    }

    /// The label the picker shows for a filter mode.
    pub open spec fn spec_display_name(self) -> Seq<char> {
        match self {
            FilterMode::LowPass => "Low Pass"@,
            FilterMode::HighPass => "High Pass"@,
            FilterMode::BandPass => "Band Pass"@,
            FilterMode::Notch => "Notch"@,
        }
    }

    /// Every filter mode sits at its own index, and each index below 4 holds the
    /// filter mode whose index it is.
    pub proof fn lemma_catalog_positions()
        ensures
            Self::catalog().len() == 4,
            forall|t: FilterMode|
                0 <= #[trigger] t.spec_index() < 4 && Self::catalog()[t.spec_index()] == t,
            forall|i: int| 0 <= i < 4 ==> (#[trigger] Self::catalog()[i]).spec_index() == i,
    {
    }

    /// Turning a filter mode into its index and back gives the same filter mode.
    pub proof fn lemma_index_round_trip(t: FilterMode)
        ensures
            0 <= t.spec_index() < 4,
            Self::spec_from_index(t.spec_index()) == t,
            Self::catalog().contains(t),
    {
        Self::lemma_catalog_positions();
        assert(Self::catalog()[t.spec_index()] == t);
    }

    /// Every index below 4 selects a filter mode whose index is that index again,
    /// so no two positions of the catalogue hold the same filter mode.
    pub proof fn lemma_from_index_round_trip(i: int)
        requires
            0 <= i < 4,
        ensures
            Self::spec_from_index(i).spec_index() == i,
            forall|j: int| 0 <= j < 4 && j != i ==> Self::catalog()[j] != Self::catalog()[i],
    {
        Self::lemma_catalog_positions();
        assert forall|j: int| 0 <= j < 4 && j != i implies Self::catalog()[j] != Self::catalog()[i] by {
            assert(Self::catalog()[j].spec_index() == j);
            assert(Self::catalog()[i].spec_index() == i);
        }
    }

    /// The filter modes in picker order, as listed: LowPass, HighPass, BandPass, Notch;
    /// with these labels; and every index outside the list selects `LowPass`.
    pub proof fn lemma_catalog_contents()
        ensures
            Self::catalog() == seq![FilterMode::LowPass, FilterMode::HighPass, FilterMode::BandPass, FilterMode::Notch],
            Seq::new(4, |i: int| Self::catalog()[i].spec_display_name()) == seq!["Low Pass"@, "High Pass"@, "Band Pass"@, "Notch"@],
            forall|i: int| !(0 <= i < 4) ==> #[trigger] Self::spec_from_index(i) == FilterMode::LowPass,
    {
        assert(Self::catalog() =~= seq![FilterMode::LowPass, FilterMode::HighPass, FilterMode::BandPass, FilterMode::Notch]);
        assert(Seq::new(4, |i: int| Self::catalog()[i].spec_display_name()) =~= seq!["Low Pass"@, "High Pass"@, "Band Pass"@, "Notch"@]);
    }

    /// The label the picker shows for this filter mode.
    pub fn display_name(&self) -> (name: &'static str)
        ensures
            name@ == self.spec_display_name(),
    {
        match self {
            FilterMode::LowPass => "Low Pass",
            FilterMode::HighPass => "High Pass",
            FilterMode::BandPass => "Band Pass",
            FilterMode::Notch => "Notch",
        }
    }

    /// Every filter mode, in picker order.
    pub fn all() -> (all: &'static [FilterMode])
        ensures
            all@ == Self::catalog(),
    {
        let all: &'static [FilterMode] = &[
            FilterMode::LowPass,
            FilterMode::HighPass,
            FilterMode::BandPass,
            FilterMode::Notch,
        ];
        assert(all@ =~= Self::catalog());
        all
    }

    /// The filter mode at picker index `index`; `LowPass` past the end of the catalogue.
    pub fn from_index(index: usize) -> (t: FilterMode)
        ensures
            t == Self::spec_from_index(index as int),
    {
        let all = Self::all();
        if index < all.len() {
            all[index]
        } else {
            FilterMode::LowPass
        }
    }
}

impl FilterMode {
    /// The labels of all filter modes, in catalogue order.
    pub fn all_names() -> (names: Vec<&'static str>)
        ensures
            names@.len() == 4,
            forall|i: int| 0 <= i < 4 ==> #[trigger] names@[i]@ == Self::catalog()[i].spec_display_name(),
    {
        let all = Self::all();
        let mut names: Vec<&'static str> = Vec::new();
        let mut i: usize = 0;
        while i < all.len()
            invariant
                all@ == Self::catalog(),
                all@.len() == 4,
                i <= all@.len(),
                names@.len() == i,
                forall|j: int| 0 <= j < i ==> #[trigger] names@[j]@ == all@[j].spec_display_name(),
            decreases all.len() - i,
        {
            names.push(all[i].display_name());
            i += 1;
        }
        names
    }
}

/// Carrier waveform of the ring modulator.
#[derive(Debug, Clone, Copy, PartialEq, Eq, Structural)]
pub enum RingModWave {
    Sine,
    Square,
    Saw,
}

pub open spec fn ring_mod_wave_at(i: int) -> RingModWave {
    if i == 1 {
        RingModWave::Square
    } else if i == 2 {
        RingModWave::Saw
    } else {
        RingModWave::Sine
    }
}

impl RingModWave {
    /// The ring-mod waveforms in index order.
    pub open spec fn catalog() -> Seq<RingModWave> {
        Seq::new(3, |i: int| ring_mod_wave_at(i))
    }

    /// What `from_index` gives: the ring-mod waveform at that index, or `Sine` past the end.
    pub open spec fn spec_from_index(i: int) -> RingModWave {
        if 0 <= i < 3 { Self::catalog()[i] } else { RingModWave::Sine }
    }

    /// The index of a ring-mod waveform.
    pub open spec fn spec_index(self) -> int {
        match self {
            RingModWave::Sine => 0,
            RingModWave::Square => 1,
            RingModWave::Saw => 2,
        }
    }

    /// The label of a ring-mod waveform.
    pub open spec fn spec_name(self) -> Seq<char> {
        match self {
            RingModWave::Sine => "Sine"@,
            RingModWave::Square => "Square"@,
            RingModWave::Saw => "Saw"@,
        }
    }

    /// Every ring-mod waveform sits at its own index, and each index below 3 holds the
    /// ring-mod waveform whose index it is.
    pub proof fn lemma_catalog_positions()
        ensures
            Self::catalog().len() == 3,
            forall|t: RingModWave|
                0 <= #[trigger] t.spec_index() < 3 && Self::catalog()[t.spec_index()] == t,
            forall|i: int| 0 <= i < 3 ==> (#[trigger] Self::catalog()[i]).spec_index() == i,
    {
    }

    /// Turning a ring-mod waveform into its index and back gives the same ring-mod waveform.
    pub proof fn lemma_index_round_trip(t: RingModWave)
        ensures
            0 <= t.spec_index() < 3,
            Self::spec_from_index(t.spec_index()) == t,
    {
        Self::lemma_catalog_positions();
    }

    /// Every index below 3 selects a ring-mod waveform whose index is that index again.
    pub proof fn lemma_from_index_round_trip(i: int)
        requires
            0 <= i < 3,
        ensures
            Self::spec_from_index(i).spec_index() == i,
    {
        Self::lemma_catalog_positions();
    }

    /// The ring-mod waveforms in picker order, as listed: Sine, Square, Saw;
    /// with these labels; and every index outside the list selects `Sine`.
    pub proof fn lemma_catalog_contents()
        ensures
            Self::catalog() == seq![RingModWave::Sine, RingModWave::Square, RingModWave::Saw],
            Seq::new(3, |i: int| Self::catalog()[i].spec_name()) == seq!["Sine"@, "Square"@, "Saw"@],
            forall|i: int| !(0 <= i < 3) ==> #[trigger] Self::spec_from_index(i) == RingModWave::Sine,
    {
        assert(Self::catalog() =~= seq![RingModWave::Sine, RingModWave::Square, RingModWave::Saw]);
        assert(Seq::new(3, |i: int| Self::catalog()[i].spec_name()) =~= seq!["Sine"@, "Square"@, "Saw"@]);
    }

    /// The ring-mod waveform at index `i`; `Sine` for any other index.
    pub fn from_index(i: usize) -> (t: RingModWave)
        ensures
            t == Self::spec_from_index(i as int),
    {
        match i {
            1 => RingModWave::Square,
            2 => RingModWave::Saw,
            _ => RingModWave::Sine,
        }
    }

    /// The labels of all ring-mod waveforms, in index order.
    pub fn all_names() -> (names: Vec<&'static str>)
        ensures
            names@.len() == 3,
            forall|i: int| 0 <= i < 3 ==> #[trigger] names@[i]@ == Self::catalog()[i].spec_name(),
    {
        let names: Vec<&'static str> = vec!["Sine", "Square", "Saw"];
        proof {
            Self::lemma_catalog_positions();
            assert(Self::catalog()[0] == RingModWave::Sine);
            assert(Self::catalog()[1] == RingModWave::Square);
            assert(Self::catalog()[2] == RingModWave::Saw);
        }
        names
    }
}

} // verus!
