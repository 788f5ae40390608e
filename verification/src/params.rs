//! The parameter registry: the closed set of sound (preset) and multi (global)
//! parameter identities, their legal value ranges and defaults, and the value
//! tables that hold the current state of a session.
//!
//! A value table starts out with every parameter at its default and is only
//! replaced entry by entry, either by local edits or by decoded device dumps.

use vstd::prelude::*;

verus! {

/// Number of sound (preset) parameters in the registry.
pub const SOUND_PARAM_COUNT: usize = 79;

/// Number of multi (global) parameters in the registry.
pub const MULTI_PARAM_COUNT: usize = 22;

/// All sound (preset) parameters of the device.
#[derive(Debug, Clone, Copy, PartialEq, Eq, Hash, Structural)]
pub enum SoundParameter {
    Osc1Wave,
    Osc1Coarse,
    Osc1FMAmount,
    Osc1Level,
    Osc1Table,
    Osc1Fine,
    Osc1FMRate,
    Osc1Sync,
    Osc2Wave,
    Osc2FMAmount,
    Osc2Level,
    Osc2Coarse,
    Osc2Table,
    Osc2Fine,
    Osc2FMRate,
    Osc2Sync,
    ExtraNoise,
    ExtraRingMod,
    FilterCutoff,
    FilterResonance,
    FilterEnvFAmount,
    FilterTrack,
    FilterAfter,
    FilterLFO1Amount,
    ShaperCutoff,
    ShaperResonance,
    ShaperEnvAAmount,
    ShaperTrack,
    ShaperMode,
    ShaperLFO2Amount,
    EnvFAttack,
    EnvFDecay,
    EnvFSustain,
    EnvFRelease,
    EnvFVelo,
    EnvFHold,
    EnvFAfter,
    EnvFTrigger,
    EnvAAttack,
    EnvADecay,
    EnvASustain,
    EnvARelease,
    EnvAVelo,
    EnvAHold,
    EnvAAfter,
    EnvATrigger,
    LFO1Shape,
    LFO1Speed,
    LFO1Rise,
    LFO1Phase,
    LFO2Shape,
    LFO2Speed,
    LFO2Rise,
    LFO2Phase,
    ArpMode,
    ArpGrid,
    ArpTempo,
    ArpHold,
    AmpLevel,
    AmpPan,
    ModEnvFAmount,
    ModEnvFTarget,
    ModEnvAAmount,
    ModEnvATarget,
    ModLFO1Amount,
    ModLFO1Target,
    ModLFO2Amount,
    ModLFO2Target,
    ModModwheelAmount,
    ModModwheelTarget,
    ModPitchAmount,
    ModPitchTarget,
    ModVelocityAmount,
    ModVelocityTarget,
    ModAftertouchAmount,
    ModAftertouchTarget,
    BendRange,
    Tune,
    PolyMode,
}

impl SoundParameter {
    /// Position of this parameter in the registry; value tables are indexed by it.
    pub open spec fn ord(self) -> int {
        match self {
            SoundParameter::Osc1Wave => 0,
            SoundParameter::Osc1Coarse => 1,
            SoundParameter::Osc1FMAmount => 2,
            SoundParameter::Osc1Level => 3,
            SoundParameter::Osc1Table => 4,
            SoundParameter::Osc1Fine => 5,
            SoundParameter::Osc1FMRate => 6,
            SoundParameter::Osc1Sync => 7,
            SoundParameter::Osc2Wave => 8,
            SoundParameter::Osc2FMAmount => 9,
            SoundParameter::Osc2Level => 10,
            SoundParameter::Osc2Coarse => 11,
            SoundParameter::Osc2Table => 12,
            SoundParameter::Osc2Fine => 13,
            SoundParameter::Osc2FMRate => 14,
            SoundParameter::Osc2Sync => 15,
            SoundParameter::ExtraNoise => 16,
            SoundParameter::ExtraRingMod => 17,
            SoundParameter::FilterCutoff => 18,
            SoundParameter::FilterResonance => 19,
            SoundParameter::FilterEnvFAmount => 20,
            SoundParameter::FilterTrack => 21,
            SoundParameter::FilterAfter => 22,
            SoundParameter::FilterLFO1Amount => 23,
            SoundParameter::ShaperCutoff => 24,
            SoundParameter::ShaperResonance => 25,
            SoundParameter::ShaperEnvAAmount => 26,
            SoundParameter::ShaperTrack => 27,
            SoundParameter::ShaperMode => 28,
            SoundParameter::ShaperLFO2Amount => 29,
            SoundParameter::EnvFAttack => 30,
            SoundParameter::EnvFDecay => 31,
            SoundParameter::EnvFSustain => 32,
            SoundParameter::EnvFRelease => 33,
            SoundParameter::EnvFVelo => 34,
            SoundParameter::EnvFHold => 35,
            SoundParameter::EnvFAfter => 36,
            SoundParameter::EnvFTrigger => 37,
            SoundParameter::EnvAAttack => 38,
            SoundParameter::EnvADecay => 39,
            SoundParameter::EnvASustain => 40,
            SoundParameter::EnvARelease => 41,
            SoundParameter::EnvAVelo => 42,
            SoundParameter::EnvAHold => 43,
            SoundParameter::EnvAAfter => 44,
            SoundParameter::EnvATrigger => 45,
            SoundParameter::LFO1Shape => 46,
            SoundParameter::LFO1Speed => 47,
            SoundParameter::LFO1Rise => 48,
            SoundParameter::LFO1Phase => 49,
            SoundParameter::LFO2Shape => 50,
            SoundParameter::LFO2Speed => 51,
            SoundParameter::LFO2Rise => 52,
            SoundParameter::LFO2Phase => 53,
            SoundParameter::ArpMode => 54,
            SoundParameter::ArpGrid => 55,
            SoundParameter::ArpTempo => 56,
            SoundParameter::ArpHold => 57,
            SoundParameter::AmpLevel => 58,
            SoundParameter::AmpPan => 59,
            SoundParameter::ModEnvFAmount => 60,
            SoundParameter::ModEnvFTarget => 61,
            SoundParameter::ModEnvAAmount => 62,
            SoundParameter::ModEnvATarget => 63,
            SoundParameter::ModLFO1Amount => 64,
            SoundParameter::ModLFO1Target => 65,
            SoundParameter::ModLFO2Amount => 66,
            SoundParameter::ModLFO2Target => 67,
            SoundParameter::ModModwheelAmount => 68,
            SoundParameter::ModModwheelTarget => 69,
            SoundParameter::ModPitchAmount => 70,
            SoundParameter::ModPitchTarget => 71,
            SoundParameter::ModVelocityAmount => 72,
            SoundParameter::ModVelocityTarget => 73,
            SoundParameter::ModAftertouchAmount => 74,
            SoundParameter::ModAftertouchTarget => 75,
            SoundParameter::BendRange => 76,
            SoundParameter::Tune => 77,
            SoundParameter::PolyMode => 78,
        }
    }

    /// Lower bound of the legal value range.
    pub open spec fn spec_min(self) -> int {
        match self {
            SoundParameter::Osc1Wave
            | SoundParameter::Osc1FMAmount
            | SoundParameter::Osc1Level
            | SoundParameter::Osc1Sync
            | SoundParameter::Osc2Wave
            | SoundParameter::Osc2FMAmount
            | SoundParameter::Osc2Level
            | SoundParameter::Osc2Sync
            | SoundParameter::ExtraNoise
            | SoundParameter::ExtraRingMod
            | SoundParameter::FilterCutoff
            | SoundParameter::FilterResonance
            | SoundParameter::ShaperCutoff
            | SoundParameter::ShaperResonance
            | SoundParameter::EnvFAttack
            | SoundParameter::EnvFDecay
            | SoundParameter::EnvFSustain
            | SoundParameter::EnvFRelease
            | SoundParameter::EnvFVelo
            | SoundParameter::EnvFHold
            | SoundParameter::EnvFAfter
            | SoundParameter::EnvAAttack
            | SoundParameter::EnvADecay
            | SoundParameter::EnvASustain
            | SoundParameter::EnvARelease
            | SoundParameter::EnvAVelo
            | SoundParameter::EnvAHold
            | SoundParameter::EnvAAfter
            | SoundParameter::LFO1Speed
            | SoundParameter::LFO1Rise
            | SoundParameter::LFO2Speed
            | SoundParameter::LFO2Rise
            | SoundParameter::AmpLevel
            | SoundParameter::BendRange => 0,
            SoundParameter::Osc1Coarse
            | SoundParameter::Osc2Coarse => -36,
            SoundParameter::Osc1Table
            | SoundParameter::Osc2Table => 0,
            SoundParameter::Osc1Fine
            | SoundParameter::Osc2Fine => -99,
            SoundParameter::Osc1FMRate
            | SoundParameter::Osc2FMRate
            | SoundParameter::FilterEnvFAmount
            | SoundParameter::FilterAfter
            | SoundParameter::FilterLFO1Amount
            | SoundParameter::ShaperEnvAAmount
            | SoundParameter::ShaperLFO2Amount
            | SoundParameter::AmpPan
            | SoundParameter::ModEnvFAmount
            | SoundParameter::ModEnvAAmount
            | SoundParameter::ModLFO1Amount
            | SoundParameter::ModLFO2Amount
            | SoundParameter::ModModwheelAmount
            | SoundParameter::ModPitchAmount
            | SoundParameter::ModVelocityAmount
            | SoundParameter::ModAftertouchAmount
            | SoundParameter::Tune => -128,
            SoundParameter::FilterTrack
            | SoundParameter::ShaperTrack => -20,
            SoundParameter::ShaperMode
            | SoundParameter::EnvFTrigger
            | SoundParameter::EnvATrigger => 0,
            SoundParameter::LFO1Shape
            | SoundParameter::LFO2Shape
            | SoundParameter::ArpMode => 0,
            SoundParameter::LFO1Phase
            | SoundParameter::LFO2Phase => 0,
            SoundParameter::ArpGrid => 0,
            SoundParameter::ArpTempo => 1,
            SoundParameter::ArpHold
            | SoundParameter::PolyMode => 0,
            SoundParameter::ModEnvFTarget
            | SoundParameter::ModEnvATarget
            | SoundParameter::ModLFO1Target
            | SoundParameter::ModLFO2Target
            | SoundParameter::ModModwheelTarget
            | SoundParameter::ModPitchTarget
            | SoundParameter::ModVelocityTarget
            | SoundParameter::ModAftertouchTarget => 0,
        }
    }

    /// Upper bound of the legal value range.
    pub open spec fn spec_max(self) -> int {
        match self {
            SoundParameter::Osc1Wave
            | SoundParameter::Osc1FMAmount
            | SoundParameter::Osc1Level
            | SoundParameter::Osc1Sync
            | SoundParameter::Osc2Wave
            | SoundParameter::Osc2FMAmount
            | SoundParameter::Osc2Level
            | SoundParameter::Osc2Sync
            | SoundParameter::ExtraNoise
            | SoundParameter::ExtraRingMod
            | SoundParameter::FilterCutoff
            | SoundParameter::FilterResonance
            | SoundParameter::ShaperCutoff
            | SoundParameter::ShaperResonance
            | SoundParameter::EnvFAttack
            | SoundParameter::EnvFDecay
            | SoundParameter::EnvFSustain
            | SoundParameter::EnvFRelease
            | SoundParameter::EnvFVelo
            | SoundParameter::EnvFHold
            | SoundParameter::EnvFAfter
            | SoundParameter::EnvAAttack
            | SoundParameter::EnvADecay
            | SoundParameter::EnvASustain
            | SoundParameter::EnvARelease
            | SoundParameter::EnvAVelo
            | SoundParameter::EnvAHold
            | SoundParameter::EnvAAfter
            | SoundParameter::LFO1Speed
            | SoundParameter::LFO1Rise
            | SoundParameter::LFO2Speed
            | SoundParameter::LFO2Rise
            | SoundParameter::AmpLevel
            | SoundParameter::BendRange => 255,
            SoundParameter::Osc1Coarse
            | SoundParameter::Osc2Coarse => 36,
            SoundParameter::Osc1Table
            | SoundParameter::Osc2Table => 10,
            SoundParameter::Osc1Fine
            | SoundParameter::Osc2Fine => 99,
            SoundParameter::Osc1FMRate
            | SoundParameter::Osc2FMRate
            | SoundParameter::FilterEnvFAmount
            | SoundParameter::FilterAfter
            | SoundParameter::FilterLFO1Amount
            | SoundParameter::ShaperEnvAAmount
            | SoundParameter::ShaperLFO2Amount
            | SoundParameter::AmpPan
            | SoundParameter::ModEnvFAmount
            | SoundParameter::ModEnvAAmount
            | SoundParameter::ModLFO1Amount
            | SoundParameter::ModLFO2Amount
            | SoundParameter::ModModwheelAmount
            | SoundParameter::ModPitchAmount
            | SoundParameter::ModVelocityAmount
            | SoundParameter::ModAftertouchAmount
            | SoundParameter::Tune => 128,
            SoundParameter::FilterTrack
            | SoundParameter::ShaperTrack => 20,
            SoundParameter::ShaperMode
            | SoundParameter::EnvFTrigger
            | SoundParameter::EnvATrigger => 2,
            SoundParameter::LFO1Shape
            | SoundParameter::LFO2Shape
            | SoundParameter::ArpMode => 7,
            SoundParameter::LFO1Phase
            | SoundParameter::LFO2Phase => 5,
            SoundParameter::ArpGrid => 6,
            SoundParameter::ArpTempo => 199,
            SoundParameter::ArpHold
            | SoundParameter::PolyMode => 1,
            SoundParameter::ModEnvFTarget
            | SoundParameter::ModEnvATarget
            | SoundParameter::ModLFO1Target
            | SoundParameter::ModLFO2Target
            | SoundParameter::ModModwheelTarget
            | SoundParameter::ModPitchTarget
            | SoundParameter::ModVelocityTarget
            | SoundParameter::ModAftertouchTarget => 21,
        }
    }

    /// True when `v` lies inside the legal range of this parameter.
    pub open spec fn in_range(self, v: int) -> bool {
        self.spec_min() <= v <= self.spec_max()
    }

    /// The default value; every parameter defaults to zero.
    pub open spec fn spec_default(self) -> int {
        0
    }

    /// Registry position as a table index.
    pub fn ordinal(&self) -> (i: usize)
        ensures
            i as int == self.ord(),
    {
        match self {
            SoundParameter::Osc1Wave => 0,
            SoundParameter::Osc1Coarse => 1,
            SoundParameter::Osc1FMAmount => 2,
            SoundParameter::Osc1Level => 3,
            SoundParameter::Osc1Table => 4,
            SoundParameter::Osc1Fine => 5,
            SoundParameter::Osc1FMRate => 6,
            SoundParameter::Osc1Sync => 7,
            SoundParameter::Osc2Wave => 8,
            SoundParameter::Osc2FMAmount => 9,
            SoundParameter::Osc2Level => 10,
            SoundParameter::Osc2Coarse => 11,
            SoundParameter::Osc2Table => 12,
            SoundParameter::Osc2Fine => 13,
            SoundParameter::Osc2FMRate => 14,
            SoundParameter::Osc2Sync => 15,
            SoundParameter::ExtraNoise => 16,
            SoundParameter::ExtraRingMod => 17,
            SoundParameter::FilterCutoff => 18,
            SoundParameter::FilterResonance => 19,
            SoundParameter::FilterEnvFAmount => 20,
            SoundParameter::FilterTrack => 21,
            SoundParameter::FilterAfter => 22,
            SoundParameter::FilterLFO1Amount => 23,
            SoundParameter::ShaperCutoff => 24,
            SoundParameter::ShaperResonance => 25,
            SoundParameter::ShaperEnvAAmount => 26,
            SoundParameter::ShaperTrack => 27,
            SoundParameter::ShaperMode => 28,
            SoundParameter::ShaperLFO2Amount => 29,
            SoundParameter::EnvFAttack => 30,
            SoundParameter::EnvFDecay => 31,
            SoundParameter::EnvFSustain => 32,
            SoundParameter::EnvFRelease => 33,
            SoundParameter::EnvFVelo => 34,
            SoundParameter::EnvFHold => 35,
            SoundParameter::EnvFAfter => 36,
            SoundParameter::EnvFTrigger => 37,
            SoundParameter::EnvAAttack => 38,
            SoundParameter::EnvADecay => 39,
            SoundParameter::EnvASustain => 40,
            SoundParameter::EnvARelease => 41,
            SoundParameter::EnvAVelo => 42,
            SoundParameter::EnvAHold => 43,
            SoundParameter::EnvAAfter => 44,
            SoundParameter::EnvATrigger => 45,
            SoundParameter::LFO1Shape => 46,
            SoundParameter::LFO1Speed => 47,
            SoundParameter::LFO1Rise => 48,
            SoundParameter::LFO1Phase => 49,
            SoundParameter::LFO2Shape => 50,
            SoundParameter::LFO2Speed => 51,
            SoundParameter::LFO2Rise => 52,
            SoundParameter::LFO2Phase => 53,
            SoundParameter::ArpMode => 54,
            SoundParameter::ArpGrid => 55,
            SoundParameter::ArpTempo => 56,
            SoundParameter::ArpHold => 57,
            SoundParameter::AmpLevel => 58,
            SoundParameter::AmpPan => 59,
            SoundParameter::ModEnvFAmount => 60,
            SoundParameter::ModEnvFTarget => 61,
            SoundParameter::ModEnvAAmount => 62,
            SoundParameter::ModEnvATarget => 63,
            SoundParameter::ModLFO1Amount => 64,
            SoundParameter::ModLFO1Target => 65,
            SoundParameter::ModLFO2Amount => 66,
            SoundParameter::ModLFO2Target => 67,
            SoundParameter::ModModwheelAmount => 68,
            SoundParameter::ModModwheelTarget => 69,
            SoundParameter::ModPitchAmount => 70,
            SoundParameter::ModPitchTarget => 71,
            SoundParameter::ModVelocityAmount => 72,
            SoundParameter::ModVelocityTarget => 73,
            SoundParameter::ModAftertouchAmount => 74,
            SoundParameter::ModAftertouchTarget => 75,
            SoundParameter::BendRange => 76,
            SoundParameter::Tune => 77,
            SoundParameter::PolyMode => 78,
        }
    }

    /// Lower and upper bound of the legal value range.
    pub fn range_bounds(&self) -> (r: (i32, i32))
        ensures
            r.0 as int == self.spec_min(),
            r.1 as int == self.spec_max(),
    {
        match self {
            SoundParameter::Osc1Wave
            | SoundParameter::Osc1FMAmount
            | SoundParameter::Osc1Level
            | SoundParameter::Osc1Sync
            | SoundParameter::Osc2Wave
            | SoundParameter::Osc2FMAmount
            | SoundParameter::Osc2Level
            | SoundParameter::Osc2Sync
            | SoundParameter::ExtraNoise
            | SoundParameter::ExtraRingMod
            | SoundParameter::FilterCutoff
            | SoundParameter::FilterResonance
            | SoundParameter::ShaperCutoff
            | SoundParameter::ShaperResonance
            | SoundParameter::EnvFAttack
            | SoundParameter::EnvFDecay
            | SoundParameter::EnvFSustain
            | SoundParameter::EnvFRelease
            | SoundParameter::EnvFVelo
            | SoundParameter::EnvFHold
            | SoundParameter::EnvFAfter
            | SoundParameter::EnvAAttack
            | SoundParameter::EnvADecay
            | SoundParameter::EnvASustain
            | SoundParameter::EnvARelease
            | SoundParameter::EnvAVelo
            | SoundParameter::EnvAHold
            | SoundParameter::EnvAAfter
            | SoundParameter::LFO1Speed
            | SoundParameter::LFO1Rise
            | SoundParameter::LFO2Speed
            | SoundParameter::LFO2Rise
            | SoundParameter::AmpLevel
            | SoundParameter::BendRange => (0, 255),
            SoundParameter::Osc1Coarse
            | SoundParameter::Osc2Coarse => (-36, 36),
            SoundParameter::Osc1Table
            | SoundParameter::Osc2Table => (0, 10),
            SoundParameter::Osc1Fine
            | SoundParameter::Osc2Fine => (-99, 99),
            SoundParameter::Osc1FMRate
            | SoundParameter::Osc2FMRate
            | SoundParameter::FilterEnvFAmount
            | SoundParameter::FilterAfter
            | SoundParameter::FilterLFO1Amount
            | SoundParameter::ShaperEnvAAmount
            | SoundParameter::ShaperLFO2Amount
            | SoundParameter::AmpPan
            | SoundParameter::ModEnvFAmount
            | SoundParameter::ModEnvAAmount
            | SoundParameter::ModLFO1Amount
            | SoundParameter::ModLFO2Amount
            | SoundParameter::ModModwheelAmount
            | SoundParameter::ModPitchAmount
            | SoundParameter::ModVelocityAmount
            | SoundParameter::ModAftertouchAmount
            | SoundParameter::Tune => (-128, 128),
            SoundParameter::FilterTrack
            | SoundParameter::ShaperTrack => (-20, 20),
            SoundParameter::ShaperMode
            | SoundParameter::EnvFTrigger
            | SoundParameter::EnvATrigger => (0, 2),
            SoundParameter::LFO1Shape
            | SoundParameter::LFO2Shape
            | SoundParameter::ArpMode => (0, 7),
            SoundParameter::LFO1Phase
            | SoundParameter::LFO2Phase => (0, 5),
            SoundParameter::ArpGrid => (0, 6),
            SoundParameter::ArpTempo => (1, 199),
            SoundParameter::ArpHold
            | SoundParameter::PolyMode => (0, 1),
            SoundParameter::ModEnvFTarget
            | SoundParameter::ModEnvATarget
            | SoundParameter::ModLFO1Target
            | SoundParameter::ModLFO2Target
            | SoundParameter::ModModwheelTarget
            | SoundParameter::ModPitchTarget
            | SoundParameter::ModVelocityTarget
            | SoundParameter::ModAftertouchTarget => (0, 21),
        }
    }

    /// Return the value range of the parameter.
    pub fn get_range(&self) -> (r: core::ops::RangeInclusive<i32>)
        ensures
            r@.start as int == self.spec_min(),
            r@.end as int == self.spec_max(),
    {
        let b = self.range_bounds();
        core::ops::RangeInclusive::new(b.0, b.1)
    }

    /// Return the default value for the parameter.
    pub fn get_default(&self) -> (r: i32)
        ensures
            r as int == self.spec_default(),
    {
        0
    }
}

/// Registry position `i` holds exactly one parameter; the inverse of `ord`.
pub open spec fn sound_param_at(i: int) -> SoundParameter {
    if i == 0 {
        SoundParameter::Osc1Wave
    } else if i == 1 {
        SoundParameter::Osc1Coarse
    } else if i == 2 {
        SoundParameter::Osc1FMAmount
    } else if i == 3 {
        SoundParameter::Osc1Level
    } else if i == 4 {
        SoundParameter::Osc1Table
    } else if i == 5 {
        SoundParameter::Osc1Fine
    } else if i == 6 {
        SoundParameter::Osc1FMRate
    } else if i == 7 {
        SoundParameter::Osc1Sync
    } else if i == 8 {
        SoundParameter::Osc2Wave
    } else if i == 9 {
        SoundParameter::Osc2FMAmount
    } else if i == 10 {
        SoundParameter::Osc2Level
    } else if i == 11 {
        SoundParameter::Osc2Coarse
    } else if i == 12 {
        SoundParameter::Osc2Table
    } else if i == 13 {
        SoundParameter::Osc2Fine
    } else if i == 14 {
        SoundParameter::Osc2FMRate
    } else if i == 15 {
        SoundParameter::Osc2Sync
    } else if i == 16 {
        SoundParameter::ExtraNoise
    } else if i == 17 {
        SoundParameter::ExtraRingMod
    } else if i == 18 {
        SoundParameter::FilterCutoff
    } else if i == 19 {
        SoundParameter::FilterResonance
    } else if i == 20 {
        SoundParameter::FilterEnvFAmount
    } else if i == 21 {
        SoundParameter::FilterTrack
    } else if i == 22 {
        SoundParameter::FilterAfter
    } else if i == 23 {
        SoundParameter::FilterLFO1Amount
    } else if i == 24 {
        SoundParameter::ShaperCutoff
    } else if i == 25 {
        SoundParameter::ShaperResonance
    } else if i == 26 {
        SoundParameter::ShaperEnvAAmount
    } else if i == 27 {
        SoundParameter::ShaperTrack
    } else if i == 28 {
        SoundParameter::ShaperMode
    } else if i == 29 {
        SoundParameter::ShaperLFO2Amount
    } else if i == 30 {
        SoundParameter::EnvFAttack
    } else if i == 31 {
        SoundParameter::EnvFDecay
    } else if i == 32 {
        SoundParameter::EnvFSustain
    } else if i == 33 {
        SoundParameter::EnvFRelease
    } else if i == 34 {
        SoundParameter::EnvFVelo
    } else if i == 35 {
        SoundParameter::EnvFHold
    } else if i == 36 {
        SoundParameter::EnvFAfter
    } else if i == 37 {
        SoundParameter::EnvFTrigger
    } else if i == 38 {
        SoundParameter::EnvAAttack
    } else if i == 39 {
        SoundParameter::EnvADecay
    } else if i == 40 {
        SoundParameter::EnvASustain
    } else if i == 41 {
        SoundParameter::EnvARelease
    } else if i == 42 {
        SoundParameter::EnvAVelo
    } else if i == 43 {
        SoundParameter::EnvAHold
    } else if i == 44 {
        SoundParameter::EnvAAfter
    } else if i == 45 {
        SoundParameter::EnvATrigger
    } else if i == 46 {
        SoundParameter::LFO1Shape
    } else if i == 47 {
        SoundParameter::LFO1Speed
    } else if i == 48 {
        SoundParameter::LFO1Rise
    } else if i == 49 {
        SoundParameter::LFO1Phase
    } else if i == 50 {
        SoundParameter::LFO2Shape
    } else if i == 51 {
        SoundParameter::LFO2Speed
    } else if i == 52 {
        SoundParameter::LFO2Rise
    } else if i == 53 {
        SoundParameter::LFO2Phase
    } else if i == 54 {
        SoundParameter::ArpMode
    } else if i == 55 {
        SoundParameter::ArpGrid
    } else if i == 56 {
        SoundParameter::ArpTempo
    } else if i == 57 {
        SoundParameter::ArpHold
    } else if i == 58 {
        SoundParameter::AmpLevel
    } else if i == 59 {
        SoundParameter::AmpPan
    } else if i == 60 {
        SoundParameter::ModEnvFAmount
    } else if i == 61 {
        SoundParameter::ModEnvFTarget
    } else if i == 62 {
        SoundParameter::ModEnvAAmount
    } else if i == 63 {
        SoundParameter::ModEnvATarget
    } else if i == 64 {
        SoundParameter::ModLFO1Amount
    } else if i == 65 {
        SoundParameter::ModLFO1Target
    } else if i == 66 {
        SoundParameter::ModLFO2Amount
    } else if i == 67 {
        SoundParameter::ModLFO2Target
    } else if i == 68 {
        SoundParameter::ModModwheelAmount
    } else if i == 69 {
        SoundParameter::ModModwheelTarget
    } else if i == 70 {
        SoundParameter::ModPitchAmount
    } else if i == 71 {
        SoundParameter::ModPitchTarget
    } else if i == 72 {
        SoundParameter::ModVelocityAmount
    } else if i == 73 {
        SoundParameter::ModVelocityTarget
    } else if i == 74 {
        SoundParameter::ModAftertouchAmount
    } else if i == 75 {
        SoundParameter::ModAftertouchTarget
    } else if i == 76 {
        SoundParameter::BendRange
    } else if i == 77 {
        SoundParameter::Tune
    } else {
        SoundParameter::PolyMode
    }
}

/// `ord` and `sound_param_at` are mutually inverse, so registry positions
/// identify parameters uniquely.
pub proof fn lemma_sound_param_at_ord(p: SoundParameter)
    ensures
        sound_param_at(p.ord()) == p,
        0 <= p.ord() < SOUND_PARAM_COUNT,
{
}

/// Two distinct sound parameters never share a registry position.
pub proof fn lemma_sound_ord_injective(a: SoundParameter, b: SoundParameter)
    requires
        a.ord() == b.ord(),
    ensures
        a == b,
{
    lemma_sound_param_at_ord(a);
    lemma_sound_param_at_ord(b);
}

/// All multi (global) parameters of the device.
#[derive(Debug, Clone, Copy, PartialEq, Eq, Hash, Structural)]
pub enum MultiParameter {
    PresetPart1,
    PresetPart2,
    PresetPart3,
    PresetPart4,
    ChannelPart1,
    ChannelPart2,
    ChannelPart3,
    ChannelPart4,
    VolumePart1,
    VolumePart2,
    VolumePart3,
    VolumePart4,
    BalancePart1,
    BalancePart2,
    BalancePart3,
    BalancePart4,
    FXLength,
    FXFeedback,
    FXMix,
    FXMode,
    FXSpeed,
    FXDepth,
}

impl MultiParameter {
    /// Position of this parameter in the registry; value tables are indexed by it.
    pub open spec fn ord(self) -> int {
        match self {
            MultiParameter::PresetPart1 => 0,
            MultiParameter::PresetPart2 => 1,
            MultiParameter::PresetPart3 => 2,
            MultiParameter::PresetPart4 => 3,
            MultiParameter::ChannelPart1 => 4,
            MultiParameter::ChannelPart2 => 5,
            MultiParameter::ChannelPart3 => 6,
            MultiParameter::ChannelPart4 => 7,
            MultiParameter::VolumePart1 => 8,
            MultiParameter::VolumePart2 => 9,
            MultiParameter::VolumePart3 => 10,
            MultiParameter::VolumePart4 => 11,
            MultiParameter::BalancePart1 => 12,
            MultiParameter::BalancePart2 => 13,
            MultiParameter::BalancePart3 => 14,
            MultiParameter::BalancePart4 => 15,
            MultiParameter::FXLength => 16,
            MultiParameter::FXFeedback => 17,
            MultiParameter::FXMix => 18,
            MultiParameter::FXMode => 19,
            MultiParameter::FXSpeed => 20,
            MultiParameter::FXDepth => 21,
        }
    }

    /// Lower bound of the legal value range.
    pub open spec fn spec_min(self) -> int {
        match self {
            MultiParameter::PresetPart1
            | MultiParameter::PresetPart2
            | MultiParameter::PresetPart3
            | MultiParameter::PresetPart4 => 0,
            MultiParameter::ChannelPart1
            | MultiParameter::ChannelPart2
            | MultiParameter::ChannelPart3
            | MultiParameter::ChannelPart4 => 0,
            MultiParameter::VolumePart1
            | MultiParameter::VolumePart2
            | MultiParameter::VolumePart3
            | MultiParameter::VolumePart4
            | MultiParameter::FXLength
            | MultiParameter::FXFeedback
            | MultiParameter::FXMix
            | MultiParameter::FXSpeed
            | MultiParameter::FXDepth => 0,
            MultiParameter::BalancePart1
            | MultiParameter::BalancePart2
            | MultiParameter::BalancePart3
            | MultiParameter::BalancePart4 => -128,
            MultiParameter::FXMode => 0,
        }
    }

    /// Upper bound of the legal value range.
    pub open spec fn spec_max(self) -> int {
        match self {
            MultiParameter::PresetPart1
            | MultiParameter::PresetPart2
            | MultiParameter::PresetPart3
            | MultiParameter::PresetPart4 => 99,
            MultiParameter::ChannelPart1
            | MultiParameter::ChannelPart2
            | MultiParameter::ChannelPart3
            | MultiParameter::ChannelPart4 => 15,
            MultiParameter::VolumePart1
            | MultiParameter::VolumePart2
            | MultiParameter::VolumePart3
            | MultiParameter::VolumePart4
            | MultiParameter::FXLength
            | MultiParameter::FXFeedback
            | MultiParameter::FXMix
            | MultiParameter::FXSpeed
            | MultiParameter::FXDepth => 255,
            MultiParameter::BalancePart1
            | MultiParameter::BalancePart2
            | MultiParameter::BalancePart3
            | MultiParameter::BalancePart4 => 128,
            MultiParameter::FXMode => 4,
        }
    }

    /// True when `v` lies inside the legal range of this parameter.
    pub open spec fn in_range(self, v: int) -> bool {
        self.spec_min() <= v <= self.spec_max()
    }

    /// The default value; every parameter defaults to zero.
    pub open spec fn spec_default(self) -> int {
        0
    }

    /// Registry position as a table index.
    pub fn ordinal(&self) -> (i: usize)
        ensures
            i as int == self.ord(),
    {
        match self {
            MultiParameter::PresetPart1 => 0,
            MultiParameter::PresetPart2 => 1,
            MultiParameter::PresetPart3 => 2,
            MultiParameter::PresetPart4 => 3,
            MultiParameter::ChannelPart1 => 4,
            MultiParameter::ChannelPart2 => 5,
            MultiParameter::ChannelPart3 => 6,
            MultiParameter::ChannelPart4 => 7,
            MultiParameter::VolumePart1 => 8,
            MultiParameter::VolumePart2 => 9,
            MultiParameter::VolumePart3 => 10,
            MultiParameter::VolumePart4 => 11,
            MultiParameter::BalancePart1 => 12,
            MultiParameter::BalancePart2 => 13,
            MultiParameter::BalancePart3 => 14,
            MultiParameter::BalancePart4 => 15,
            MultiParameter::FXLength => 16,
            MultiParameter::FXFeedback => 17,
            MultiParameter::FXMix => 18,
            MultiParameter::FXMode => 19,
            MultiParameter::FXSpeed => 20,
            MultiParameter::FXDepth => 21,
        }
    }

    /// Lower and upper bound of the legal value range.
    pub fn range_bounds(&self) -> (r: (i32, i32))
        ensures
            r.0 as int == self.spec_min(),
            r.1 as int == self.spec_max(),
    {
        match self {
            MultiParameter::PresetPart1
            | MultiParameter::PresetPart2
            | MultiParameter::PresetPart3
            | MultiParameter::PresetPart4 => (0, 99),
            MultiParameter::ChannelPart1
            | MultiParameter::ChannelPart2
            | MultiParameter::ChannelPart3
            | MultiParameter::ChannelPart4 => (0, 15),
            MultiParameter::VolumePart1
            | MultiParameter::VolumePart2
            | MultiParameter::VolumePart3
            | MultiParameter::VolumePart4
            | MultiParameter::FXLength
            | MultiParameter::FXFeedback
            | MultiParameter::FXMix
            | MultiParameter::FXSpeed
            | MultiParameter::FXDepth => (0, 255),
            MultiParameter::BalancePart1
            | MultiParameter::BalancePart2
            | MultiParameter::BalancePart3
            | MultiParameter::BalancePart4 => (-128, 128),
            MultiParameter::FXMode => (0, 4),
        }
    }

    /// Return the value range of the parameter.
    pub fn get_range(&self) -> (r: core::ops::RangeInclusive<i32>)
        ensures
            r@.start as int == self.spec_min(),
            r@.end as int == self.spec_max(),
    {
        let b = self.range_bounds();
        core::ops::RangeInclusive::new(b.0, b.1)
    }

    /// Return the default value for the parameter.
    pub fn get_default(&self) -> (r: i32)
        ensures
            r as int == self.spec_default(),
    {
        0
    }
}

/// Registry position `i` holds exactly one parameter; the inverse of `ord`.
pub open spec fn multi_param_at(i: int) -> MultiParameter {
    if i == 0 {
        MultiParameter::PresetPart1
    } else if i == 1 {
        MultiParameter::PresetPart2
    } else if i == 2 {
        MultiParameter::PresetPart3
    } else if i == 3 {
        MultiParameter::PresetPart4
    } else if i == 4 {
        MultiParameter::ChannelPart1
    } else if i == 5 {
        MultiParameter::ChannelPart2
    } else if i == 6 {
        MultiParameter::ChannelPart3
    } else if i == 7 {
        MultiParameter::ChannelPart4
    } else if i == 8 {
        MultiParameter::VolumePart1
    } else if i == 9 {
        MultiParameter::VolumePart2
    } else if i == 10 {
        MultiParameter::VolumePart3
    } else if i == 11 {
        MultiParameter::VolumePart4
    } else if i == 12 {
        MultiParameter::BalancePart1
    } else if i == 13 {
        MultiParameter::BalancePart2
    } else if i == 14 {
        MultiParameter::BalancePart3
    } else if i == 15 {
        MultiParameter::BalancePart4
    } else if i == 16 {
        MultiParameter::FXLength
    } else if i == 17 {
        MultiParameter::FXFeedback
    } else if i == 18 {
        MultiParameter::FXMix
    } else if i == 19 {
        MultiParameter::FXMode
    } else if i == 20 {
        MultiParameter::FXSpeed
    } else {
        MultiParameter::FXDepth
    }
}

/// `ord` and `multi_param_at` are mutually inverse.
pub proof fn lemma_multi_param_at_ord(p: MultiParameter)
    ensures
        multi_param_at(p.ord()) == p,
        0 <= p.ord() < MULTI_PARAM_COUNT,
{
}

/// Two distinct multi parameters never share a registry position.
pub proof fn lemma_multi_ord_injective(a: MultiParameter, b: MultiParameter)
    requires
        a.ord() == b.ord(),
    ensures
        a == b,
{
    lemma_multi_param_at_ord(a);
    lemma_multi_param_at_ord(b);
}

/// Read access shared by the two value tables: the current value of a
/// parameter, falling back to the parameter's default when it was never set.
pub trait GetValue<T> {
    /// Value the table currently associates with `param`.
    spec fn spec_get_value(&self, param: T) -> i32;

    /// Return the value of the requested parameter.
    fn get_value(&self, param: T) -> (r: i32)
        ensures
            r == self.spec_get_value(param),
    ;
}

/// Table of the current sound (preset) parameter values of one part.
///
/// Every parameter always has a value; a fresh table holds each parameter's
/// default.
pub struct SoundParameterValues {
    values: Vec<i32>,
}

impl SoundParameterValues {
    #[verifier::type_invariant]
    spec fn wf(self) -> bool {
        self.values@.len() == SOUND_PARAM_COUNT
    }

    /// A fresh table, holding the default value of every parameter.
    pub fn new() -> (r: Self)
        ensures
            forall|p: SoundParameter| r.spec_get_value(p) == 0,
    {
        let mut values: Vec<i32> = Vec::new();
        while values.len() < SOUND_PARAM_COUNT
            invariant
                forall|k: int| 0 <= k < values@.len() ==> values@[k] == 0,
                values@.len() <= SOUND_PARAM_COUNT,
            decreases SOUND_PARAM_COUNT - values@.len(),
        {
            values.push(0);
        }
        let r = Self { values };
        proof {
            assert forall|p: SoundParameter| r.spec_get_value(p) == 0 by {
                lemma_sound_param_at_ord(p);
            }
        }
        r
    }

    /// Set the value of `param`, leaving every other parameter untouched.
    pub fn insert(&mut self, param: SoundParameter, value: i32)
        ensures
            final(self).spec_get_value(param) == value,
            forall|q: SoundParameter| q != param
                ==> final(self).spec_get_value(q) == old(self).spec_get_value(q),
    {
        proof {
            use_type_invariant(&*self);
            lemma_sound_param_at_ord(param);
        }
        let i: usize = param.ordinal();
        self.values[i] = value;
        proof {
            assert forall|q: SoundParameter| q != param
                implies self.spec_get_value(q) == old(self).spec_get_value(q) by {
                if q.ord() == param.ord() {
                    lemma_sound_ord_injective(q, param);
                }
            }
        }
    }

    /// The table as a total map from parameter to current value.
    pub open spec fn as_map(self) -> Map<SoundParameter, i32> {
        Map::new(|p: SoundParameter| true, |p: SoundParameter| self.spec_get_value(p))
    }
}

impl GetValue<SoundParameter> for SoundParameterValues {
    closed spec fn spec_get_value(&self, param: SoundParameter) -> i32 {
        self.values@[param.ord()]
    }

    /// Return the value of the requested preset parameter.
    fn get_value(&self, param: SoundParameter) -> (r: i32) {
        proof {
            use_type_invariant(self);
            lemma_sound_param_at_ord(param);
        }
        let i: usize = param.ordinal();
        self.values[i]
    }
}

/// Table of the current multi (global) parameter values.
///
/// Every parameter always has a value; a fresh table holds each parameter's
/// default.
pub struct MultiParameterValues {
    values: Vec<i32>,
}

impl MultiParameterValues {
    #[verifier::type_invariant]
    spec fn wf(self) -> bool {
        self.values@.len() == MULTI_PARAM_COUNT
    }

    /// A fresh table, holding the default value of every parameter.
    pub fn new() -> (r: Self)
        ensures
            forall|p: MultiParameter| r.spec_get_value(p) == 0,
    {
        let mut values: Vec<i32> = Vec::new();
        while values.len() < MULTI_PARAM_COUNT
            invariant
                forall|k: int| 0 <= k < values@.len() ==> values@[k] == 0,
                values@.len() <= MULTI_PARAM_COUNT,
            decreases MULTI_PARAM_COUNT - values@.len(),
        {
            values.push(0);
        }
        let r = Self { values };
        proof {
            assert forall|p: MultiParameter| r.spec_get_value(p) == 0 by {
                lemma_multi_param_at_ord(p);
            }
        }
        r
    }

    /// Set the value of `param`, leaving every other parameter untouched.
    pub fn insert(&mut self, param: MultiParameter, value: i32)
        ensures
            final(self).spec_get_value(param) == value,
            forall|q: MultiParameter| q != param
                ==> final(self).spec_get_value(q) == old(self).spec_get_value(q),
    {
        proof {
            use_type_invariant(&*self);
            lemma_multi_param_at_ord(param);
        }
        let i: usize = param.ordinal();
        self.values[i] = value;
        proof {
            assert forall|q: MultiParameter| q != param
                implies self.spec_get_value(q) == old(self).spec_get_value(q) by {
                if q.ord() == param.ord() {
                    lemma_multi_ord_injective(q, param);
                }
            }
        }
    }

    /// The table as a total map from parameter to current value.
    pub open spec fn as_map(self) -> Map<MultiParameter, i32> {
        Map::new(|p: MultiParameter| true, |p: MultiParameter| self.spec_get_value(p))
    }
}

impl GetValue<MultiParameter> for MultiParameterValues {
    closed spec fn spec_get_value(&self, param: MultiParameter) -> i32 {
        self.values@[param.ord()]
    }

    /// Return the value of the requested multi parameter.
    fn get_value(&self, param: MultiParameter) -> (r: i32) {
        proof {
            use_type_invariant(self);
            lemma_multi_param_at_ord(param);
        }
        let i: usize = param.ordinal();
        self.values[i]
    }
}

/// Every sound parameter's default value lies inside its declared range, with
/// one exception: `ArpTempo` starts its range at 1, so its zero default falls
/// below it.
pub proof fn lemma_sound_default_in_range(p: SoundParameter)
    requires
        p != SoundParameter::ArpTempo,
    ensures
        p.spec_min() <= p.spec_default() <= p.spec_max(),
{
}

/// Every multi parameter's default value lies inside its declared range.
pub proof fn lemma_multi_default_in_range(p: MultiParameter)
    ensures
        p.spec_min() <= p.spec_default() <= p.spec_max(),
{
}

} // verus!
