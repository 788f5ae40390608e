//! The value lists behind the enumerated parameters: each list names the
//! choices a small-range parameter offers, maps them to and from the
//! parameter's integer values, and carries the labels a front end shows.

use vstd::prelude::*;

verus! {

/// Shapes selectable for the two low-frequency oscillators.
#[derive(Debug, Clone, Copy, PartialEq, Eq, Structural)]
pub enum LFOShape {
    Triangle,
    RampUp,
    RampDown,
    Square,
    MWave,
    Random,
    Slew,
    AM,
}

impl LFOShape {
    /// The parameter value this choice stands for.
    pub open spec fn spec_value(self) -> int {
        match self {
            LFOShape::Triangle => 0,
            LFOShape::RampUp => 1,
            LFOShape::RampDown => 2,
            LFOShape::Square => 3,
            LFOShape::MWave => 4,
            LFOShape::Random => 5,
            LFOShape::Slew => 6,
            LFOShape::AM => 7,
        }
    }

    /// The choice a parameter value stands for, if it is one.
    pub open spec fn spec_from_value(v: int) -> Option<LFOShape> {
        if v == 0 {
            Some(LFOShape::Triangle)
        } else if v == 1 {
            Some(LFOShape::RampUp)
        } else if v == 2 {
            Some(LFOShape::RampDown)
        } else if v == 3 {
            Some(LFOShape::Square)
        } else if v == 4 {
            Some(LFOShape::MWave)
        } else if v == 5 {
            Some(LFOShape::Random)
        } else if v == 6 {
            Some(LFOShape::Slew)
        } else if v == 7 {
            Some(LFOShape::AM)
        } else {
            None
        }
    }

    /// The label shown for this choice.
    pub open spec fn spec_label(self) -> Seq<char> {
        match self {
            LFOShape::Triangle => "Triangle"@,
            LFOShape::RampUp => "Ramp Up"@,
            LFOShape::RampDown => "Ramp Down"@,
            LFOShape::Square => "Square"@,
            LFOShape::MWave => "M-Wave"@,
            LFOShape::Random => "Random"@,
            LFOShape::Slew => "Slew"@,
            LFOShape::AM => "AM"@,
        }
    }

    /// The parameter value this choice stands for.
    pub fn value(&self) -> (v: i32)
        ensures
            v as int == self.spec_value(),
    {
        match self {
            LFOShape::Triangle => 0,
            LFOShape::RampUp => 1,
            LFOShape::RampDown => 2,
            LFOShape::Square => 3,
            LFOShape::MWave => 4,
            LFOShape::Random => 5,
            LFOShape::Slew => 6,
            LFOShape::AM => 7,
        }
    }

    /// The choice a parameter value stands for, if it is one.
    pub fn from_value(value: i32) -> (r: Option<LFOShape>)
        ensures
            r == LFOShape::spec_from_value(value as int),
    {
        match value {
            0 => Some(LFOShape::Triangle),
            1 => Some(LFOShape::RampUp),
            2 => Some(LFOShape::RampDown),
            3 => Some(LFOShape::Square),
            4 => Some(LFOShape::MWave),
            5 => Some(LFOShape::Random),
            6 => Some(LFOShape::Slew),
            7 => Some(LFOShape::AM),
            _ => None,
        }
    }

    /// The label shown for this choice.
    pub fn label(&self) -> (s: String)
        ensures
            s@ == self.spec_label(),
    {
        match self {
            LFOShape::Triangle => "Triangle".to_owned(),
            LFOShape::RampUp => "Ramp Up".to_owned(),
            LFOShape::RampDown => "Ramp Down".to_owned(),
            LFOShape::Square => "Square".to_owned(),
            LFOShape::MWave => "M-Wave".to_owned(),
            LFOShape::Random => "Random".to_owned(),
            LFOShape::Slew => "Slew".to_owned(),
            LFOShape::AM => "AM".to_owned(),
        }
    }

    /// All choices, in the order their values count up from zero.
    pub fn all() -> (r: Vec<LFOShape>)
        ensures
            r@.len() == 8,
            forall|k: int| 0 <= k < r@.len() ==> #[trigger] r@[k].spec_value() == k,
    {
        let mut r: Vec<LFOShape> = Vec::new();
        r.push(LFOShape::Triangle);
        r.push(LFOShape::RampUp);
        r.push(LFOShape::RampDown);
        r.push(LFOShape::Square);
        r.push(LFOShape::MWave);
        r.push(LFOShape::Random);
        r.push(LFOShape::Slew);
        r.push(LFOShape::AM);
        r
    }

    /// Taking the value of a choice and looking it up again returns the
    /// same choice.
    pub proof fn lemma_value_roundtrip(self)
        ensures
            LFOShape::spec_from_value(self.spec_value()) == Some(self),
    {
    }
}

/// Phase behaviours selectable for the two low-frequency oscillators.
#[derive(Debug, Clone, Copy, PartialEq, Eq, Structural)]
pub enum LFOPhase {
    Free,
    Random,
    Phase0,
    Phase90,
    Phase180,
    Phase270,
}

impl LFOPhase {
    /// The parameter value this choice stands for.
    pub open spec fn spec_value(self) -> int {
        match self {
            LFOPhase::Free => 0,
            LFOPhase::Random => 1,
            LFOPhase::Phase0 => 2,
            LFOPhase::Phase90 => 3,
            LFOPhase::Phase180 => 4,
            LFOPhase::Phase270 => 5,
        }
    }

    /// The choice a parameter value stands for, if it is one.
    pub open spec fn spec_from_value(v: int) -> Option<LFOPhase> {
        if v == 0 {
            Some(LFOPhase::Free)
        } else if v == 1 {
            Some(LFOPhase::Random)
        } else if v == 2 {
            Some(LFOPhase::Phase0)
        } else if v == 3 {
            Some(LFOPhase::Phase90)
        } else if v == 4 {
            Some(LFOPhase::Phase180)
        } else if v == 5 {
            Some(LFOPhase::Phase270)
        } else {
            None
        }
    }

    /// The label shown for this choice.
    pub open spec fn spec_label(self) -> Seq<char> {
        match self {
            LFOPhase::Free => "Free"@,
            LFOPhase::Random => "Random"@,
            LFOPhase::Phase0 => "0°"@,
            LFOPhase::Phase90 => "90°"@,
            LFOPhase::Phase180 => "180°"@,
            LFOPhase::Phase270 => "270°"@,
        }
    }

    /// The parameter value this choice stands for.
    pub fn value(&self) -> (v: i32)
        ensures
            v as int == self.spec_value(),
    {
        match self {
            LFOPhase::Free => 0,
            LFOPhase::Random => 1,
            LFOPhase::Phase0 => 2,
            LFOPhase::Phase90 => 3,
            LFOPhase::Phase180 => 4,
            LFOPhase::Phase270 => 5,
        }
    }

    /// The choice a parameter value stands for, if it is one.
    pub fn from_value(value: i32) -> (r: Option<LFOPhase>)
        ensures
            r == LFOPhase::spec_from_value(value as int),
    {
        match value {
            0 => Some(LFOPhase::Free),
            1 => Some(LFOPhase::Random),
            2 => Some(LFOPhase::Phase0),
            3 => Some(LFOPhase::Phase90),
            4 => Some(LFOPhase::Phase180),
            5 => Some(LFOPhase::Phase270),
            _ => None,
        }
    }

    /// The label shown for this choice.
    pub fn label(&self) -> (s: String)
        ensures
            s@ == self.spec_label(),
    {
        match self {
            LFOPhase::Free => "Free".to_owned(),
            LFOPhase::Random => "Random".to_owned(),
            LFOPhase::Phase0 => "0°".to_owned(),
            LFOPhase::Phase90 => "90°".to_owned(),
            LFOPhase::Phase180 => "180°".to_owned(),
            LFOPhase::Phase270 => "270°".to_owned(),
        }
    }

    /// All choices, in the order their values count up from zero.
    pub fn all() -> (r: Vec<LFOPhase>)
        ensures
            r@.len() == 6,
            forall|k: int| 0 <= k < r@.len() ==> #[trigger] r@[k].spec_value() == k,
    {
        let mut r: Vec<LFOPhase> = Vec::new();
        r.push(LFOPhase::Free);
        r.push(LFOPhase::Random);
        r.push(LFOPhase::Phase0);
        r.push(LFOPhase::Phase90);
        r.push(LFOPhase::Phase180);
        r.push(LFOPhase::Phase270);
        r
    }

    /// Taking the value of a choice and looking it up again returns the
    /// same choice.
    pub proof fn lemma_value_roundtrip(self)
        ensures
            LFOPhase::spec_from_value(self.spec_value()) == Some(self),
    {
    }
}

/// Wavetables selectable for the two oscillators.
#[derive(Debug, Clone, Copy, PartialEq, Eq, Structural)]
pub enum Wavetable {
    Factory1,
    Factory2,
    Factory3,
    Factory4,
    Factory5,
    Factory6,
    Factory7,
    Factory8,
    User,
    RandomNote,
    RandomChord,
}

impl Wavetable {
    /// The parameter value this choice stands for.
    pub open spec fn spec_value(self) -> int {
        match self {
            Wavetable::Factory1 => 0,
            Wavetable::Factory2 => 1,
            Wavetable::Factory3 => 2,
            Wavetable::Factory4 => 3,
            Wavetable::Factory5 => 4,
            Wavetable::Factory6 => 5,
            Wavetable::Factory7 => 6,
            Wavetable::Factory8 => 7,
            Wavetable::User => 8,
            Wavetable::RandomNote => 9,
            Wavetable::RandomChord => 10,
        }
    }

    /// The choice a parameter value stands for, if it is one.
    pub open spec fn spec_from_value(v: int) -> Option<Wavetable> {
        if v == 0 {
            Some(Wavetable::Factory1)
        } else if v == 1 {
            Some(Wavetable::Factory2)
        } else if v == 2 {
            Some(Wavetable::Factory3)
        } else if v == 3 {
            Some(Wavetable::Factory4)
        } else if v == 4 {
            Some(Wavetable::Factory5)
        } else if v == 5 {
            Some(Wavetable::Factory6)
        } else if v == 6 {
            Some(Wavetable::Factory7)
        } else if v == 7 {
            Some(Wavetable::Factory8)
        } else if v == 8 {
            Some(Wavetable::User)
        } else if v == 9 {
            Some(Wavetable::RandomNote)
        } else if v == 10 {
            Some(Wavetable::RandomChord)
        } else {
            None
        }
    }

    /// The label shown for this choice.
    pub open spec fn spec_label(self) -> Seq<char> {
        match self {
            Wavetable::Factory1 => "Basic"@,
            Wavetable::Factory2 => "Bright"@,
            Wavetable::Factory3 => "Full"@,
            Wavetable::Factory4 => "Formants"@,
            Wavetable::Factory5 => "Mix 1"@,
            Wavetable::Factory6 => "Mix 2"@,
            Wavetable::Factory7 => "Mix 3"@,
            Wavetable::Factory8 => "Mix 4"@,
            Wavetable::User => "User"@,
            Wavetable::RandomNote => "Random Note"@,
            Wavetable::RandomChord => "Random Chord"@,
        }
    }

    /// The parameter value this choice stands for.
    pub fn value(&self) -> (v: i32)
        ensures
            v as int == self.spec_value(),
    {
        match self {
            Wavetable::Factory1 => 0,
            Wavetable::Factory2 => 1,
            Wavetable::Factory3 => 2,
            Wavetable::Factory4 => 3,
            Wavetable::Factory5 => 4,
            Wavetable::Factory6 => 5,
            Wavetable::Factory7 => 6,
            Wavetable::Factory8 => 7,
            Wavetable::User => 8,
            Wavetable::RandomNote => 9,
            Wavetable::RandomChord => 10,
        }
    }

    /// The choice a parameter value stands for, if it is one.
    pub fn from_value(value: i32) -> (r: Option<Wavetable>)
        ensures
            r == Wavetable::spec_from_value(value as int),
    {
        match value {
            0 => Some(Wavetable::Factory1),
            1 => Some(Wavetable::Factory2),
            2 => Some(Wavetable::Factory3),
            3 => Some(Wavetable::Factory4),
            4 => Some(Wavetable::Factory5),
            5 => Some(Wavetable::Factory6),
            6 => Some(Wavetable::Factory7),
            7 => Some(Wavetable::Factory8),
            8 => Some(Wavetable::User),
            9 => Some(Wavetable::RandomNote),
            10 => Some(Wavetable::RandomChord),
            _ => None,
        }
    }

    /// The label shown for this choice.
    pub fn label(&self) -> (s: String)
        ensures
            s@ == self.spec_label(),
    {
        match self {
            Wavetable::Factory1 => "Basic".to_owned(),
            Wavetable::Factory2 => "Bright".to_owned(),
            Wavetable::Factory3 => "Full".to_owned(),
            Wavetable::Factory4 => "Formants".to_owned(),
            Wavetable::Factory5 => "Mix 1".to_owned(),
            Wavetable::Factory6 => "Mix 2".to_owned(),
            Wavetable::Factory7 => "Mix 3".to_owned(),
            Wavetable::Factory8 => "Mix 4".to_owned(),
            Wavetable::User => "User".to_owned(),
            Wavetable::RandomNote => "Random Note".to_owned(),
            Wavetable::RandomChord => "Random Chord".to_owned(),
        }
    }

    /// All choices, in the order their values count up from zero.
    pub fn all() -> (r: Vec<Wavetable>)
        ensures
            r@.len() == 11,
            forall|k: int| 0 <= k < r@.len() ==> #[trigger] r@[k].spec_value() == k,
    {
        let mut r: Vec<Wavetable> = Vec::new();
        r.push(Wavetable::Factory1);
        r.push(Wavetable::Factory2);
        r.push(Wavetable::Factory3);
        r.push(Wavetable::Factory4);
        r.push(Wavetable::Factory5);
        r.push(Wavetable::Factory6);
        r.push(Wavetable::Factory7);
        r.push(Wavetable::Factory8);
        r.push(Wavetable::User);
        r.push(Wavetable::RandomNote);
        r.push(Wavetable::RandomChord);
        r
    }

    /// Taking the value of a choice and looking it up again returns the
    /// same choice.
    pub proof fn lemma_value_roundtrip(self)
        ensures
            Wavetable::spec_from_value(self.spec_value()) == Some(self),
    {
    }
}

/// Filter modes selectable for the shaper.
#[derive(Debug, Clone, Copy, PartialEq, Eq, Structural)]
pub enum ShaperMode {
    Lowpass,
    Bandpass,
    Highpass,
}

impl ShaperMode {
    /// The parameter value this choice stands for.
    pub open spec fn spec_value(self) -> int {
        match self {
            ShaperMode::Lowpass => 0,
            ShaperMode::Bandpass => 1,
            ShaperMode::Highpass => 2,
        }
    }

    /// The choice a parameter value stands for, if it is one.
    pub open spec fn spec_from_value(v: int) -> Option<ShaperMode> {
        if v == 0 {
            Some(ShaperMode::Lowpass)
        } else if v == 1 {
            Some(ShaperMode::Bandpass)
        } else if v == 2 {
            Some(ShaperMode::Highpass)
        } else {
            None
        }
    }

    /// The label shown for this choice.
    pub open spec fn spec_label(self) -> Seq<char> {
        match self {
            ShaperMode::Lowpass => "Low-pass"@,
            ShaperMode::Bandpass => "Band-pass"@,
            ShaperMode::Highpass => "High-pass"@,
        }
    }

    /// The parameter value this choice stands for.
    pub fn value(&self) -> (v: i32)
        ensures
            v as int == self.spec_value(),
    {
        match self {
            ShaperMode::Lowpass => 0,
            ShaperMode::Bandpass => 1,
            ShaperMode::Highpass => 2,
        }
    }

    /// The choice a parameter value stands for, if it is one.
    pub fn from_value(value: i32) -> (r: Option<ShaperMode>)
        ensures
            r == ShaperMode::spec_from_value(value as int),
    {
        match value {
            0 => Some(ShaperMode::Lowpass),
            1 => Some(ShaperMode::Bandpass),
            2 => Some(ShaperMode::Highpass),
            _ => None,
        }
    }

    /// The label shown for this choice.
    pub fn label(&self) -> (s: String)
        ensures
            s@ == self.spec_label(),
    {
        match self {
            ShaperMode::Lowpass => "Low-pass".to_owned(),
            ShaperMode::Bandpass => "Band-pass".to_owned(),
            ShaperMode::Highpass => "High-pass".to_owned(),
        }
    }

    /// All choices, in the order their values count up from zero.
    pub fn all() -> (r: Vec<ShaperMode>)
        ensures
            r@.len() == 3,
            forall|k: int| 0 <= k < r@.len() ==> #[trigger] r@[k].spec_value() == k,
    {
        let mut r: Vec<ShaperMode> = Vec::new();
        r.push(ShaperMode::Lowpass);
        r.push(ShaperMode::Bandpass);
        r.push(ShaperMode::Highpass);
        r
    }

    /// Taking the value of a choice and looking it up again returns the
    /// same choice.
    pub proof fn lemma_value_roundtrip(self)
        ensures
            ShaperMode::spec_from_value(self.spec_value()) == Some(self),
    {
    }
}

/// Trigger behaviours selectable for the two envelopes.
#[derive(Debug, Clone, Copy, PartialEq, Eq, Structural)]
pub enum EnvTrigger {
    Always,
    Never,
    Continue,
}

impl EnvTrigger {
    /// The parameter value this choice stands for.
    pub open spec fn spec_value(self) -> int {
        match self {
            EnvTrigger::Always => 0,
            EnvTrigger::Never => 1,
            EnvTrigger::Continue => 2,
        }
    }

    /// The choice a parameter value stands for, if it is one.
    pub open spec fn spec_from_value(v: int) -> Option<EnvTrigger> {
        if v == 0 {
            Some(EnvTrigger::Always)
        } else if v == 1 {
            Some(EnvTrigger::Never)
        } else if v == 2 {
            Some(EnvTrigger::Continue)
        } else {
            None
        }
    }

    /// The label shown for this choice.
    pub open spec fn spec_label(self) -> Seq<char> {
        match self {
            EnvTrigger::Always => "Always"@,
            EnvTrigger::Never => "Never"@,
            EnvTrigger::Continue => "Continue"@,
        }
    }

    /// The parameter value this choice stands for.
    pub fn value(&self) -> (v: i32)
        ensures
            v as int == self.spec_value(),
    {
        match self {
            EnvTrigger::Always => 0,
            EnvTrigger::Never => 1,
            EnvTrigger::Continue => 2,
        }
    }

    /// The choice a parameter value stands for, if it is one.
    pub fn from_value(value: i32) -> (r: Option<EnvTrigger>)
        ensures
            r == EnvTrigger::spec_from_value(value as int),
    {
        match value {
            0 => Some(EnvTrigger::Always),
            1 => Some(EnvTrigger::Never),
            2 => Some(EnvTrigger::Continue),
            _ => None,
        }
    }

    /// The label shown for this choice.
    pub fn label(&self) -> (s: String)
        ensures
            s@ == self.spec_label(),
    {
        match self {
            EnvTrigger::Always => "Always".to_owned(),
            EnvTrigger::Never => "Never".to_owned(),
            EnvTrigger::Continue => "Continue".to_owned(),
        }
    }

    /// All choices, in the order their values count up from zero.
    pub fn all() -> (r: Vec<EnvTrigger>)
        ensures
            r@.len() == 3,
            forall|k: int| 0 <= k < r@.len() ==> #[trigger] r@[k].spec_value() == k,
    {
        let mut r: Vec<EnvTrigger> = Vec::new();
        r.push(EnvTrigger::Always);
        r.push(EnvTrigger::Never);
        r.push(EnvTrigger::Continue);
        r
    }

    /// Taking the value of a choice and looking it up again returns the
    /// same choice.
    pub proof fn lemma_value_roundtrip(self)
        ensures
            EnvTrigger::spec_from_value(self.spec_value()) == Some(self),
    {
    }
}

/// Modes selectable for the arpeggiator.
#[derive(Debug, Clone, Copy, PartialEq, Eq, Structural)]
pub enum ArpMode {
    Off,
    Up,
    Down,
    Random,
    Up2,
    Down2,
    Up4,
    Down4,
}

impl ArpMode {
    /// The parameter value this choice stands for.
    pub open spec fn spec_value(self) -> int {
        match self {
            ArpMode::Off => 0,
            ArpMode::Up => 1,
            ArpMode::Down => 2,
            ArpMode::Random => 3,
            ArpMode::Up2 => 4,
            ArpMode::Down2 => 5,
            ArpMode::Up4 => 6,
            ArpMode::Down4 => 7,
        }
    }

    /// The choice a parameter value stands for, if it is one.
    pub open spec fn spec_from_value(v: int) -> Option<ArpMode> {
        if v == 0 {
            Some(ArpMode::Off)
        } else if v == 1 {
            Some(ArpMode::Up)
        } else if v == 2 {
            Some(ArpMode::Down)
        } else if v == 3 {
            Some(ArpMode::Random)
        } else if v == 4 {
            Some(ArpMode::Up2)
        } else if v == 5 {
            Some(ArpMode::Down2)
        } else if v == 6 {
            Some(ArpMode::Up4)
        } else if v == 7 {
            Some(ArpMode::Down4)
        } else {
            None
        }
    }

    /// The label shown for this choice.
    pub open spec fn spec_label(self) -> Seq<char> {
        match self {
            ArpMode::Off => "Off"@,
            ArpMode::Up => "Up"@,
            ArpMode::Down => "Down"@,
            ArpMode::Random => "Random"@,
            ArpMode::Up2 => "Up 2"@,
            ArpMode::Down2 => "Down 2"@,
            ArpMode::Up4 => "Up 4"@,
            ArpMode::Down4 => "Down 4"@,
        }
    }

    /// The parameter value this choice stands for.
    pub fn value(&self) -> (v: i32)
        ensures
            v as int == self.spec_value(),
    {
        match self {
            ArpMode::Off => 0,
            ArpMode::Up => 1,
            ArpMode::Down => 2,
            ArpMode::Random => 3,
            ArpMode::Up2 => 4,
            ArpMode::Down2 => 5,
            ArpMode::Up4 => 6,
            ArpMode::Down4 => 7,
        }
    }

    /// The choice a parameter value stands for, if it is one.
    pub fn from_value(value: i32) -> (r: Option<ArpMode>)
        ensures
            r == ArpMode::spec_from_value(value as int),
    {
        match value {
            0 => Some(ArpMode::Off),
            1 => Some(ArpMode::Up),
            2 => Some(ArpMode::Down),
            3 => Some(ArpMode::Random),
            4 => Some(ArpMode::Up2),
            5 => Some(ArpMode::Down2),
            6 => Some(ArpMode::Up4),
            7 => Some(ArpMode::Down4),
            _ => None,
        }
    }

    /// The label shown for this choice.
    pub fn label(&self) -> (s: String)
        ensures
            s@ == self.spec_label(),
    {
        match self {
            ArpMode::Off => "Off".to_owned(),
            ArpMode::Up => "Up".to_owned(),
            ArpMode::Down => "Down".to_owned(),
            ArpMode::Random => "Random".to_owned(),
            ArpMode::Up2 => "Up 2".to_owned(),
            ArpMode::Down2 => "Down 2".to_owned(),
            ArpMode::Up4 => "Up 4".to_owned(),
            ArpMode::Down4 => "Down 4".to_owned(),
        }
    }

    /// All choices, in the order their values count up from zero.
    pub fn all() -> (r: Vec<ArpMode>)
        ensures
            r@.len() == 8,
            forall|k: int| 0 <= k < r@.len() ==> #[trigger] r@[k].spec_value() == k,
    {
        let mut r: Vec<ArpMode> = Vec::new();
        r.push(ArpMode::Off);
        r.push(ArpMode::Up);
        r.push(ArpMode::Down);
        r.push(ArpMode::Random);
        r.push(ArpMode::Up2);
        r.push(ArpMode::Down2);
        r.push(ArpMode::Up4);
        r.push(ArpMode::Down4);
        r
    }

    /// Taking the value of a choice and looking it up again returns the
    /// same choice.
    pub proof fn lemma_value_roundtrip(self)
        ensures
            ArpMode::spec_from_value(self.spec_value()) == Some(self),
    {
    }
}

/// Note grids selectable for the arpeggiator.
#[derive(Debug, Clone, Copy, PartialEq, Eq, Structural)]
pub enum ArpGrid {
    Div48,
    Div32,
    Div24,
    Div16,
    Div12,
    Div8,
    Div6,
}

impl ArpGrid {
    /// The parameter value this choice stands for.
    pub open spec fn spec_value(self) -> int {
        match self {
            ArpGrid::Div48 => 0,
            ArpGrid::Div32 => 1,
            ArpGrid::Div24 => 2,
            ArpGrid::Div16 => 3,
            ArpGrid::Div12 => 4,
            ArpGrid::Div8 => 5,
            ArpGrid::Div6 => 6,
        }
    }

    /// The choice a parameter value stands for, if it is one.
    pub open spec fn spec_from_value(v: int) -> Option<ArpGrid> {
        if v == 0 {
            Some(ArpGrid::Div48)
        } else if v == 1 {
            Some(ArpGrid::Div32)
        } else if v == 2 {
            Some(ArpGrid::Div24)
        } else if v == 3 {
            Some(ArpGrid::Div16)
        } else if v == 4 {
            Some(ArpGrid::Div12)
        } else if v == 5 {
            Some(ArpGrid::Div8)
        } else if v == 6 {
            Some(ArpGrid::Div6)
        } else {
            None
        }
    }

    /// The label shown for this choice.
    pub open spec fn spec_label(self) -> Seq<char> {
        match self {
            ArpGrid::Div48 => "1/2"@,
            ArpGrid::Div32 => "1/2 triplet"@,
            ArpGrid::Div24 => "1/4"@,
            ArpGrid::Div16 => "1/4 triplet"@,
            ArpGrid::Div12 => "1/8"@,
            ArpGrid::Div8 => "1/8 triplet"@,
            ArpGrid::Div6 => "1/16"@,
        }
    }

    /// The parameter value this choice stands for.
    pub fn value(&self) -> (v: i32)
        ensures
            v as int == self.spec_value(),
    {
        match self {
            ArpGrid::Div48 => 0,
            ArpGrid::Div32 => 1,
            ArpGrid::Div24 => 2,
            ArpGrid::Div16 => 3,
            ArpGrid::Div12 => 4,
            ArpGrid::Div8 => 5,
            ArpGrid::Div6 => 6,
        }
    }

    /// The choice a parameter value stands for, if it is one.
    pub fn from_value(value: i32) -> (r: Option<ArpGrid>)
        ensures
            r == ArpGrid::spec_from_value(value as int),
    {
        match value {
            0 => Some(ArpGrid::Div48),
            1 => Some(ArpGrid::Div32),
            2 => Some(ArpGrid::Div24),
            3 => Some(ArpGrid::Div16),
            4 => Some(ArpGrid::Div12),
            5 => Some(ArpGrid::Div8),
            6 => Some(ArpGrid::Div6),
            _ => None,
        }
    }

    /// The label shown for this choice.
    pub fn label(&self) -> (s: String)
        ensures
            s@ == self.spec_label(),
    {
        match self {
            ArpGrid::Div48 => "1/2".to_owned(),
            ArpGrid::Div32 => "1/2 triplet".to_owned(),
            ArpGrid::Div24 => "1/4".to_owned(),
            ArpGrid::Div16 => "1/4 triplet".to_owned(),
            ArpGrid::Div12 => "1/8".to_owned(),
            ArpGrid::Div8 => "1/8 triplet".to_owned(),
            ArpGrid::Div6 => "1/16".to_owned(),
        }
    }

    /// All choices, in the order their values count up from zero.
    pub fn all() -> (r: Vec<ArpGrid>)
        ensures
            r@.len() == 7,
            forall|k: int| 0 <= k < r@.len() ==> #[trigger] r@[k].spec_value() == k,
    {
        let mut r: Vec<ArpGrid> = Vec::new();
        r.push(ArpGrid::Div48);
        r.push(ArpGrid::Div32);
        r.push(ArpGrid::Div24);
        r.push(ArpGrid::Div16);
        r.push(ArpGrid::Div12);
        r.push(ArpGrid::Div8);
        r.push(ArpGrid::Div6);
        r
    }

    /// Taking the value of a choice and looking it up again returns the
    /// same choice.
    pub proof fn lemma_value_roundtrip(self)
        ensures
            ArpGrid::spec_from_value(self.spec_value()) == Some(self),
    {
    }
}

/// Effect modes selectable for the multi effect unit.
#[derive(Debug, Clone, Copy, PartialEq, Eq, Structural)]
pub enum FXMode {
    Off,
    MonoDelay,
    ChorusFlanger,
    StereoDelay,
}

impl FXMode {
    /// The parameter value this choice stands for.
    pub open spec fn spec_value(self) -> int {
        match self {
            FXMode::Off => 0,
            FXMode::MonoDelay => 1,
            FXMode::ChorusFlanger => 2,
            FXMode::StereoDelay => 3,
        }
    }

    /// The choice a parameter value stands for, if it is one.
    pub open spec fn spec_from_value(v: int) -> Option<FXMode> {
        if v == 0 {
            Some(FXMode::Off)
        } else if v == 1 {
            Some(FXMode::MonoDelay)
        } else if v == 2 {
            Some(FXMode::ChorusFlanger)
        } else if v == 3 {
            Some(FXMode::StereoDelay)
        } else {
            None
        }
    }

    /// The label shown for this choice.
    pub open spec fn spec_label(self) -> Seq<char> {
        match self {
            FXMode::Off => "Off"@,
            FXMode::MonoDelay => "Mono Delay"@,
            FXMode::ChorusFlanger => "Chorus/Flanger"@,
            FXMode::StereoDelay => "Stereo Delay"@,
        }
    }

    /// The parameter value this choice stands for.
    pub fn value(&self) -> (v: i32)
        ensures
            v as int == self.spec_value(),
    {
        match self {
            FXMode::Off => 0,
            FXMode::MonoDelay => 1,
            FXMode::ChorusFlanger => 2,
            FXMode::StereoDelay => 3,
        }
    }

    /// The choice a parameter value stands for, if it is one.
    pub fn from_value(value: i32) -> (r: Option<FXMode>)
        ensures
            r == FXMode::spec_from_value(value as int),
    {
        match value {
            0 => Some(FXMode::Off),
            1 => Some(FXMode::MonoDelay),
            2 => Some(FXMode::ChorusFlanger),
            3 => Some(FXMode::StereoDelay),
            _ => None,
        }
    }

    /// The label shown for this choice.
    pub fn label(&self) -> (s: String)
        ensures
            s@ == self.spec_label(),
    {
        match self {
            FXMode::Off => "Off".to_owned(),
            FXMode::MonoDelay => "Mono Delay".to_owned(),
            FXMode::ChorusFlanger => "Chorus/Flanger".to_owned(),
            FXMode::StereoDelay => "Stereo Delay".to_owned(),
        }
    }

    /// All choices, in the order their values count up from zero.
    pub fn all() -> (r: Vec<FXMode>)
        ensures
            r@.len() == 4,
            forall|k: int| 0 <= k < r@.len() ==> #[trigger] r@[k].spec_value() == k,
    {
        let mut r: Vec<FXMode> = Vec::new();
        r.push(FXMode::Off);
        r.push(FXMode::MonoDelay);
        r.push(FXMode::ChorusFlanger);
        r.push(FXMode::StereoDelay);
        r
    }

    /// Taking the value of a choice and looking it up again returns the
    /// same choice.
    pub proof fn lemma_value_roundtrip(self)
        ensures
            FXMode::spec_from_value(self.spec_value()) == Some(self),
    {
    }
}

/// MIDI channels selectable for a part, including omni.
#[derive(Debug, Clone, Copy, PartialEq, Eq, Structural)]
pub enum MidiChannel {
    Omni,
    Channel1,
    Channel2,
    Channel3,
    Channel4,
    Channel5,
    Channel6,
    Channel7,
    Channel8,
    Channel9,
    Channel10,
    Channel11,
    Channel12,
    Channel13,
    Channel14,
    Channel15,
    Channel16,
}

impl MidiChannel {
    /// The parameter value this choice stands for.
    pub open spec fn spec_value(self) -> int {
        match self {
            MidiChannel::Omni => 0,
            MidiChannel::Channel1 => 1,
            MidiChannel::Channel2 => 2,
            MidiChannel::Channel3 => 3,
            MidiChannel::Channel4 => 4,
            MidiChannel::Channel5 => 5,
            MidiChannel::Channel6 => 6,
            MidiChannel::Channel7 => 7,
            MidiChannel::Channel8 => 8,
            MidiChannel::Channel9 => 9,
            MidiChannel::Channel10 => 10,
            MidiChannel::Channel11 => 11,
            MidiChannel::Channel12 => 12,
            MidiChannel::Channel13 => 13,
            MidiChannel::Channel14 => 14,
            MidiChannel::Channel15 => 15,
            MidiChannel::Channel16 => 16,
        }
    }

    /// The choice a parameter value stands for, if it is one.
    pub open spec fn spec_from_value(v: int) -> Option<MidiChannel> {
        if v == 0 {
            Some(MidiChannel::Omni)
        } else if v == 1 {
            Some(MidiChannel::Channel1)
        } else if v == 2 {
            Some(MidiChannel::Channel2)
        } else if v == 3 {
            Some(MidiChannel::Channel3)
        } else if v == 4 {
            Some(MidiChannel::Channel4)
        } else if v == 5 {
            Some(MidiChannel::Channel5)
        } else if v == 6 {
            Some(MidiChannel::Channel6)
        } else if v == 7 {
            Some(MidiChannel::Channel7)
        } else if v == 8 {
            Some(MidiChannel::Channel8)
        } else if v == 9 {
            Some(MidiChannel::Channel9)
        } else if v == 10 {
            Some(MidiChannel::Channel10)
        } else if v == 11 {
            Some(MidiChannel::Channel11)
        } else if v == 12 {
            Some(MidiChannel::Channel12)
        } else if v == 13 {
            Some(MidiChannel::Channel13)
        } else if v == 14 {
            Some(MidiChannel::Channel14)
        } else if v == 15 {
            Some(MidiChannel::Channel15)
        } else if v == 16 {
            Some(MidiChannel::Channel16)
        } else {
            None
        }
    }

    /// The label shown for this choice.
    pub open spec fn spec_label(self) -> Seq<char> {
        match self {
            MidiChannel::Omni => "Omni"@,
            MidiChannel::Channel1 => "Channel 1"@,
            MidiChannel::Channel2 => "Channel 2"@,
            MidiChannel::Channel3 => "Channel 3"@,
            MidiChannel::Channel4 => "Channel 4"@,
            MidiChannel::Channel5 => "Channel 5"@,
            MidiChannel::Channel6 => "Channel 6"@,
            MidiChannel::Channel7 => "Channel 7"@,
            MidiChannel::Channel8 => "Channel 8"@,
            MidiChannel::Channel9 => "Channel 9"@,
            MidiChannel::Channel10 => "Channel 10"@,
            MidiChannel::Channel11 => "Channel 11"@,
            MidiChannel::Channel12 => "Channel 12"@,
            MidiChannel::Channel13 => "Channel 13"@,
            MidiChannel::Channel14 => "Channel 14"@,
            MidiChannel::Channel15 => "Channel 15"@,
            MidiChannel::Channel16 => "Channel 16"@,
        }
    }

    /// The parameter value this choice stands for.
    pub fn value(&self) -> (v: i32)
        ensures
            v as int == self.spec_value(),
    {
        match self {
            MidiChannel::Omni => 0,
            MidiChannel::Channel1 => 1,
            MidiChannel::Channel2 => 2,
            MidiChannel::Channel3 => 3,
            MidiChannel::Channel4 => 4,
            MidiChannel::Channel5 => 5,
            MidiChannel::Channel6 => 6,
            MidiChannel::Channel7 => 7,
            MidiChannel::Channel8 => 8,
            MidiChannel::Channel9 => 9,
            MidiChannel::Channel10 => 10,
            MidiChannel::Channel11 => 11,
            MidiChannel::Channel12 => 12,
            MidiChannel::Channel13 => 13,
            MidiChannel::Channel14 => 14,
            MidiChannel::Channel15 => 15,
            MidiChannel::Channel16 => 16,
        }
    }

    /// The choice a parameter value stands for, if it is one.
    pub fn from_value(value: i32) -> (r: Option<MidiChannel>)
        ensures
            r == MidiChannel::spec_from_value(value as int),
    {
        match value {
            0 => Some(MidiChannel::Omni),
            1 => Some(MidiChannel::Channel1),
            2 => Some(MidiChannel::Channel2),
            3 => Some(MidiChannel::Channel3),
            4 => Some(MidiChannel::Channel4),
            5 => Some(MidiChannel::Channel5),
            6 => Some(MidiChannel::Channel6),
            7 => Some(MidiChannel::Channel7),
            8 => Some(MidiChannel::Channel8),
            9 => Some(MidiChannel::Channel9),
            10 => Some(MidiChannel::Channel10),
            11 => Some(MidiChannel::Channel11),
            12 => Some(MidiChannel::Channel12),
            13 => Some(MidiChannel::Channel13),
            14 => Some(MidiChannel::Channel14),
            15 => Some(MidiChannel::Channel15),
            16 => Some(MidiChannel::Channel16),
            _ => None,
        }
    }

    /// The label shown for this choice.
    pub fn label(&self) -> (s: String)
        ensures
            s@ == self.spec_label(),
    {
        match self {
            MidiChannel::Omni => "Omni".to_owned(),
            MidiChannel::Channel1 => "Channel 1".to_owned(),
            MidiChannel::Channel2 => "Channel 2".to_owned(),
            MidiChannel::Channel3 => "Channel 3".to_owned(),
            MidiChannel::Channel4 => "Channel 4".to_owned(),
            MidiChannel::Channel5 => "Channel 5".to_owned(),
            MidiChannel::Channel6 => "Channel 6".to_owned(),
            MidiChannel::Channel7 => "Channel 7".to_owned(),
            MidiChannel::Channel8 => "Channel 8".to_owned(),
            MidiChannel::Channel9 => "Channel 9".to_owned(),
            MidiChannel::Channel10 => "Channel 10".to_owned(),
            MidiChannel::Channel11 => "Channel 11".to_owned(),
            MidiChannel::Channel12 => "Channel 12".to_owned(),
            MidiChannel::Channel13 => "Channel 13".to_owned(),
            MidiChannel::Channel14 => "Channel 14".to_owned(),
            MidiChannel::Channel15 => "Channel 15".to_owned(),
            MidiChannel::Channel16 => "Channel 16".to_owned(),
        }
    }

    /// All choices, in the order their values count up from zero.
    pub fn all() -> (r: Vec<MidiChannel>)
        ensures
            r@.len() == 17,
            forall|k: int| 0 <= k < r@.len() ==> #[trigger] r@[k].spec_value() == k,
    {
        let mut r: Vec<MidiChannel> = Vec::new();
        r.push(MidiChannel::Omni);
        r.push(MidiChannel::Channel1);
        r.push(MidiChannel::Channel2);
        r.push(MidiChannel::Channel3);
        r.push(MidiChannel::Channel4);
        r.push(MidiChannel::Channel5);
        r.push(MidiChannel::Channel6);
        r.push(MidiChannel::Channel7);
        r.push(MidiChannel::Channel8);
        r.push(MidiChannel::Channel9);
        r.push(MidiChannel::Channel10);
        r.push(MidiChannel::Channel11);
        r.push(MidiChannel::Channel12);
        r.push(MidiChannel::Channel13);
        r.push(MidiChannel::Channel14);
        r.push(MidiChannel::Channel15);
        r.push(MidiChannel::Channel16);
        r
    }

    /// Taking the value of a choice and looking it up again returns the
    /// same choice.
    pub proof fn lemma_value_roundtrip(self)
        ensures
            MidiChannel::spec_from_value(self.spec_value()) == Some(self),
    {
    }
}

/// The four parts of the device.
#[derive(Debug, Clone, Copy, PartialEq, Eq, Structural)]
pub enum PartList {
    Part1,
    Part2,
    Part3,
    Part4,
}

impl PartList {
    /// The parameter value this choice stands for.
    pub open spec fn spec_value(self) -> int {
        match self {
            PartList::Part1 => 0,
            PartList::Part2 => 1,
            PartList::Part3 => 2,
            PartList::Part4 => 3,
        }
    }

    /// The choice a parameter value stands for, if it is one.
    pub open spec fn spec_from_value(v: int) -> Option<PartList> {
        if v == 0 {
            Some(PartList::Part1)
        } else if v == 1 {
            Some(PartList::Part2)
        } else if v == 2 {
            Some(PartList::Part3)
        } else if v == 3 {
            Some(PartList::Part4)
        } else {
            None
        }
    }

    /// The label shown for this choice.
    pub open spec fn spec_label(self) -> Seq<char> {
        match self {
            PartList::Part1 => "Part 1"@,
            PartList::Part2 => "Part 2"@,
            PartList::Part3 => "Part 3"@,
            PartList::Part4 => "Part 4"@,
        }
    }

    /// The parameter value this choice stands for.
    pub fn value(&self) -> (v: i32)
        ensures
            v as int == self.spec_value(),
    {
        match self {
            PartList::Part1 => 0,
            PartList::Part2 => 1,
            PartList::Part3 => 2,
            PartList::Part4 => 3,
        }
    }

    /// The choice a parameter value stands for, if it is one.
    pub fn from_value(value: i32) -> (r: Option<PartList>)
        ensures
            r == PartList::spec_from_value(value as int),
    {
        match value {
            0 => Some(PartList::Part1),
            1 => Some(PartList::Part2),
            2 => Some(PartList::Part3),
            3 => Some(PartList::Part4),
            _ => None,
        }
    }

    /// The label shown for this choice.
    pub fn label(&self) -> (s: String)
        ensures
            s@ == self.spec_label(),
    {
        match self {
            PartList::Part1 => "Part 1".to_owned(),
            PartList::Part2 => "Part 2".to_owned(),
            PartList::Part3 => "Part 3".to_owned(),
            PartList::Part4 => "Part 4".to_owned(),
        }
    }

    /// All choices, in the order their values count up from zero.
    pub fn all() -> (r: Vec<PartList>)
        ensures
            r@.len() == 4,
            forall|k: int| 0 <= k < r@.len() ==> #[trigger] r@[k].spec_value() == k,
    {
        let mut r: Vec<PartList> = Vec::new();
        r.push(PartList::Part1);
        r.push(PartList::Part2);
        r.push(PartList::Part3);
        r.push(PartList::Part4);
        r
    }

    /// Taking the value of a choice and looking it up again returns the
    /// same choice.
    pub proof fn lemma_value_roundtrip(self)
        ensures
            PartList::spec_from_value(self.spec_value()) == Some(self),
    {
    }
}

/// Targets selectable for the modulation slots.
#[derive(Debug, Clone, Copy, PartialEq, Eq, Structural)]
pub enum ModTarget {
    Osc1Wave,
    Osc2Wave,
    Osc1Pitch,
    Osc2Pitch,
    Osc1FMAmount,
    Osc2FMAmount,
    Osc1FMRate,
    Osc2FMRate,
    Osc1Sync,
    Osc2Sync,
    Osc1Level,
    Osc2Level,
    ExtraNoise,
    ExtraRingMod,
    FilterCutoff,
    ShaperCutoff,
    FilterResonance,
    ShaperResonance,
    LFO1Speed,
    LFO2Speed,
    AmpLevel,
    AmpPan,
}

impl ModTarget {
    /// The parameter value this choice stands for.
    pub open spec fn spec_value(self) -> int {
        match self {
            ModTarget::Osc1Wave => 0,
            ModTarget::Osc2Wave => 1,
            ModTarget::Osc1Pitch => 2,
            ModTarget::Osc2Pitch => 3,
            ModTarget::Osc1FMAmount => 4,
            ModTarget::Osc2FMAmount => 5,
            ModTarget::Osc1FMRate => 6,
            ModTarget::Osc2FMRate => 7,
            ModTarget::Osc1Sync => 8,
            ModTarget::Osc2Sync => 9,
            ModTarget::Osc1Level => 10,
            ModTarget::Osc2Level => 11,
            ModTarget::ExtraNoise => 12,
            ModTarget::ExtraRingMod => 13,
            ModTarget::FilterCutoff => 14,
            ModTarget::ShaperCutoff => 15,
            ModTarget::FilterResonance => 16,
            ModTarget::ShaperResonance => 17,
            ModTarget::LFO1Speed => 18,
            ModTarget::LFO2Speed => 19,
            ModTarget::AmpLevel => 20,
            ModTarget::AmpPan => 21,
        }
    }

    /// The choice a parameter value stands for, if it is one.
    pub open spec fn spec_from_value(v: int) -> Option<ModTarget> {
        if v == 0 {
            Some(ModTarget::Osc1Wave)
        } else if v == 1 {
            Some(ModTarget::Osc2Wave)
        } else if v == 2 {
            Some(ModTarget::Osc1Pitch)
        } else if v == 3 {
            Some(ModTarget::Osc2Pitch)
        } else if v == 4 {
            Some(ModTarget::Osc1FMAmount)
        } else if v == 5 {
            Some(ModTarget::Osc2FMAmount)
        } else if v == 6 {
            Some(ModTarget::Osc1FMRate)
        } else if v == 7 {
            Some(ModTarget::Osc2FMRate)
        } else if v == 8 {
            Some(ModTarget::Osc1Sync)
        } else if v == 9 {
            Some(ModTarget::Osc2Sync)
        } else if v == 10 {
            Some(ModTarget::Osc1Level)
        } else if v == 11 {
            Some(ModTarget::Osc2Level)
        } else if v == 12 {
            Some(ModTarget::ExtraNoise)
        } else if v == 13 {
            Some(ModTarget::ExtraRingMod)
        } else if v == 14 {
            Some(ModTarget::FilterCutoff)
        } else if v == 15 {
            Some(ModTarget::ShaperCutoff)
        } else if v == 16 {
            Some(ModTarget::FilterResonance)
        } else if v == 17 {
            Some(ModTarget::ShaperResonance)
        } else if v == 18 {
            Some(ModTarget::LFO1Speed)
        } else if v == 19 {
            Some(ModTarget::LFO2Speed)
        } else if v == 20 {
            Some(ModTarget::AmpLevel)
        } else if v == 21 {
            Some(ModTarget::AmpPan)
        } else {
            None
        }
    }

    /// The label shown for this choice.
    pub open spec fn spec_label(self) -> Seq<char> {
        match self {
            ModTarget::Osc1Wave => "Osc 1 Wave"@,
            ModTarget::Osc2Wave => "Osc 2 Wave"@,
            ModTarget::Osc1Pitch => "Osc 1 Pitch"@,
            ModTarget::Osc2Pitch => "Osc 2 Pitch"@,
            ModTarget::Osc1FMAmount => "Osc 1 FM Amount"@,
            ModTarget::Osc2FMAmount => "Osc 2 FM Amount"@,
            ModTarget::Osc1FMRate => "Osc 1 FM Rate"@,
            ModTarget::Osc2FMRate => "Osc 2 FM Rate"@,
            ModTarget::Osc1Sync => "Osc 1 Sync"@,
            ModTarget::Osc2Sync => "Osc 2 Sync"@,
            ModTarget::Osc1Level => "Osc 1 Level"@,
            ModTarget::Osc2Level => "Osc 2 Level"@,
            ModTarget::ExtraNoise => "Extra Noise"@,
            ModTarget::ExtraRingMod => "Extra RingMod"@,
            ModTarget::FilterCutoff => "Filter Cutoff"@,
            ModTarget::ShaperCutoff => "Shaper Cutoff"@,
            ModTarget::FilterResonance => "Filter Resonance"@,
            ModTarget::ShaperResonance => "Shaper Resonance"@,
            ModTarget::LFO1Speed => "LFO 1 Speed"@,
            ModTarget::LFO2Speed => "LFO 2 Speed"@,
            ModTarget::AmpLevel => "Amp Level"@,
            ModTarget::AmpPan => "Amp Pan"@,
        }
    }

    /// The parameter value this choice stands for.
    pub fn value(&self) -> (v: i32)
        ensures
            v as int == self.spec_value(),
    {
        match self {
            ModTarget::Osc1Wave => 0,
            ModTarget::Osc2Wave => 1,
            ModTarget::Osc1Pitch => 2,
            ModTarget::Osc2Pitch => 3,
            ModTarget::Osc1FMAmount => 4,
            ModTarget::Osc2FMAmount => 5,
            ModTarget::Osc1FMRate => 6,
            ModTarget::Osc2FMRate => 7,
            ModTarget::Osc1Sync => 8,
            ModTarget::Osc2Sync => 9,
            ModTarget::Osc1Level => 10,
            ModTarget::Osc2Level => 11,
            ModTarget::ExtraNoise => 12,
            ModTarget::ExtraRingMod => 13,
            ModTarget::FilterCutoff => 14,
            ModTarget::ShaperCutoff => 15,
            ModTarget::FilterResonance => 16,
            ModTarget::ShaperResonance => 17,
            ModTarget::LFO1Speed => 18,
            ModTarget::LFO2Speed => 19,
            ModTarget::AmpLevel => 20,
            ModTarget::AmpPan => 21,
        }
    }

    /// The choice a parameter value stands for, if it is one.
    pub fn from_value(value: i32) -> (r: Option<ModTarget>)
        ensures
            r == ModTarget::spec_from_value(value as int),
    {
        match value {
            0 => Some(ModTarget::Osc1Wave),
            1 => Some(ModTarget::Osc2Wave),
            2 => Some(ModTarget::Osc1Pitch),
            3 => Some(ModTarget::Osc2Pitch),
            4 => Some(ModTarget::Osc1FMAmount),
            5 => Some(ModTarget::Osc2FMAmount),
            6 => Some(ModTarget::Osc1FMRate),
            7 => Some(ModTarget::Osc2FMRate),
            8 => Some(ModTarget::Osc1Sync),
            9 => Some(ModTarget::Osc2Sync),
            10 => Some(ModTarget::Osc1Level),
            11 => Some(ModTarget::Osc2Level),
            12 => Some(ModTarget::ExtraNoise),
            13 => Some(ModTarget::ExtraRingMod),
            14 => Some(ModTarget::FilterCutoff),
            15 => Some(ModTarget::ShaperCutoff),
            16 => Some(ModTarget::FilterResonance),
            17 => Some(ModTarget::ShaperResonance),
            18 => Some(ModTarget::LFO1Speed),
            19 => Some(ModTarget::LFO2Speed),
            20 => Some(ModTarget::AmpLevel),
            21 => Some(ModTarget::AmpPan),
            _ => None,
        }
    }

    /// The label shown for this choice.
    pub fn label(&self) -> (s: String)
        ensures
            s@ == self.spec_label(),
    {
        match self {
            ModTarget::Osc1Wave => "Osc 1 Wave".to_owned(),
            ModTarget::Osc2Wave => "Osc 2 Wave".to_owned(),
            ModTarget::Osc1Pitch => "Osc 1 Pitch".to_owned(),
            ModTarget::Osc2Pitch => "Osc 2 Pitch".to_owned(),
            ModTarget::Osc1FMAmount => "Osc 1 FM Amount".to_owned(),
            ModTarget::Osc2FMAmount => "Osc 2 FM Amount".to_owned(),
            ModTarget::Osc1FMRate => "Osc 1 FM Rate".to_owned(),
            ModTarget::Osc2FMRate => "Osc 2 FM Rate".to_owned(),
            ModTarget::Osc1Sync => "Osc 1 Sync".to_owned(),
            ModTarget::Osc2Sync => "Osc 2 Sync".to_owned(),
            ModTarget::Osc1Level => "Osc 1 Level".to_owned(),
            ModTarget::Osc2Level => "Osc 2 Level".to_owned(),
            ModTarget::ExtraNoise => "Extra Noise".to_owned(),
            ModTarget::ExtraRingMod => "Extra RingMod".to_owned(),
            ModTarget::FilterCutoff => "Filter Cutoff".to_owned(),
            ModTarget::ShaperCutoff => "Shaper Cutoff".to_owned(),
            ModTarget::FilterResonance => "Filter Resonance".to_owned(),
            ModTarget::ShaperResonance => "Shaper Resonance".to_owned(),
            ModTarget::LFO1Speed => "LFO 1 Speed".to_owned(),
            ModTarget::LFO2Speed => "LFO 2 Speed".to_owned(),
            ModTarget::AmpLevel => "Amp Level".to_owned(),
            ModTarget::AmpPan => "Amp Pan".to_owned(),
        }
    }

    /// All choices, in the order their values count up from zero.
    pub fn all() -> (r: Vec<ModTarget>)
        ensures
            r@.len() == 22,
            forall|k: int| 0 <= k < r@.len() ==> #[trigger] r@[k].spec_value() == k,
    {
        let mut r: Vec<ModTarget> = Vec::new();
        r.push(ModTarget::Osc1Wave);
        r.push(ModTarget::Osc2Wave);
        r.push(ModTarget::Osc1Pitch);
        r.push(ModTarget::Osc2Pitch);
        r.push(ModTarget::Osc1FMAmount);
        r.push(ModTarget::Osc2FMAmount);
        r.push(ModTarget::Osc1FMRate);
        r.push(ModTarget::Osc2FMRate);
        r.push(ModTarget::Osc1Sync);
        r.push(ModTarget::Osc2Sync);
        r.push(ModTarget::Osc1Level);
        r.push(ModTarget::Osc2Level);
        r.push(ModTarget::ExtraNoise);
        r.push(ModTarget::ExtraRingMod);
        r.push(ModTarget::FilterCutoff);
        r.push(ModTarget::ShaperCutoff);
        r.push(ModTarget::FilterResonance);
        r.push(ModTarget::ShaperResonance);
        r.push(ModTarget::LFO1Speed);
        r.push(ModTarget::LFO2Speed);
        r.push(ModTarget::AmpLevel);
        r.push(ModTarget::AmpPan);
        r
    }

    /// Taking the value of a choice and looking it up again returns the
    /// same choice.
    pub proof fn lemma_value_roundtrip(self)
        ensures
            ModTarget::spec_from_value(self.spec_value()) == Some(self),
    {
    }
}

} // verus!
