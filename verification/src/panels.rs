//! The display panels: each section of the editor surface lists the
//! parameters it presents, in display order, and reads their current
//! values from a value table.  Building the actual widgets out of these
//! rows is left to the front end.

use vstd::prelude::*;

verus! {

use crate::params::GetValue;
use crate::params::MultiParameter;
use crate::params::MultiParameterValues;
use crate::params::SoundParameter;
use crate::params::SoundParameterValues;

/// Section containing the parameters of oscillator 1.
pub struct Osc1Section {}

impl Osc1Section {
    /// The parameters this section presents, in display order.
    pub open spec fn spec_params() -> Seq<SoundParameter> {
        seq![
            SoundParameter::Osc1Table,
            SoundParameter::Osc1Wave,
            SoundParameter::Osc1Coarse,
            SoundParameter::Osc1Fine,
            SoundParameter::Osc1FMAmount,
            SoundParameter::Osc1FMRate,
            SoundParameter::Osc1Sync,
            SoundParameter::Osc1Level,
        ]
    }

    /// Constructs a new instance.
    pub fn new() -> Osc1Section {
        Osc1Section {  }
    }

    /// The rows this section displays: each parameter it presents,
    /// paired with its current value in the table.
    pub fn view_rows(&self, values: &SoundParameterValues) -> (r: Vec<(SoundParameter, i32)>)
        ensures
            r@.len() == Osc1Section::spec_params().len(),
            forall|k: int|
                0 <= k < r@.len() ==> (#[trigger] r@[k]).0 == Osc1Section::spec_params()[k]
                    && r@[k].1 == values.spec_get_value(Osc1Section::spec_params()[k]),
    {
        let mut r: Vec<(SoundParameter, i32)> = Vec::new();
        r.push((SoundParameter::Osc1Table, values.get_value(SoundParameter::Osc1Table)));
        r.push((SoundParameter::Osc1Wave, values.get_value(SoundParameter::Osc1Wave)));
        r.push((SoundParameter::Osc1Coarse, values.get_value(SoundParameter::Osc1Coarse)));
        r.push((SoundParameter::Osc1Fine, values.get_value(SoundParameter::Osc1Fine)));
        r.push((SoundParameter::Osc1FMAmount, values.get_value(SoundParameter::Osc1FMAmount)));
        r.push((SoundParameter::Osc1FMRate, values.get_value(SoundParameter::Osc1FMRate)));
        r.push((SoundParameter::Osc1Sync, values.get_value(SoundParameter::Osc1Sync)));
        r.push((SoundParameter::Osc1Level, values.get_value(SoundParameter::Osc1Level)));
        r
    }
}

/// Section containing the parameters of oscillator 2.
pub struct Osc2Section {}

impl Osc2Section {
    /// The parameters this section presents, in display order.
    pub open spec fn spec_params() -> Seq<SoundParameter> {
        seq![
            SoundParameter::Osc2Table,
            SoundParameter::Osc2Wave,
            SoundParameter::Osc2Coarse,
            SoundParameter::Osc2Fine,
            SoundParameter::Osc2FMAmount,
            SoundParameter::Osc2FMRate,
            SoundParameter::Osc2Sync,
            SoundParameter::Osc2Level,
        ]
    }

    /// Constructs a new instance.
    pub fn new() -> Osc2Section {
        Osc2Section {  }
    }

    /// The rows this section displays: each parameter it presents,
    /// paired with its current value in the table.
    pub fn view_rows(&self, values: &SoundParameterValues) -> (r: Vec<(SoundParameter, i32)>)
        ensures
            r@.len() == Osc2Section::spec_params().len(),
            forall|k: int|
                0 <= k < r@.len() ==> (#[trigger] r@[k]).0 == Osc2Section::spec_params()[k]
                    && r@[k].1 == values.spec_get_value(Osc2Section::spec_params()[k]),
    {
        let mut r: Vec<(SoundParameter, i32)> = Vec::new();
        r.push((SoundParameter::Osc2Table, values.get_value(SoundParameter::Osc2Table)));
        r.push((SoundParameter::Osc2Wave, values.get_value(SoundParameter::Osc2Wave)));
        r.push((SoundParameter::Osc2Coarse, values.get_value(SoundParameter::Osc2Coarse)));
        r.push((SoundParameter::Osc2Fine, values.get_value(SoundParameter::Osc2Fine)));
        r.push((SoundParameter::Osc2FMAmount, values.get_value(SoundParameter::Osc2FMAmount)));
        r.push((SoundParameter::Osc2FMRate, values.get_value(SoundParameter::Osc2FMRate)));
        r.push((SoundParameter::Osc2Sync, values.get_value(SoundParameter::Osc2Sync)));
        r.push((SoundParameter::Osc2Level, values.get_value(SoundParameter::Osc2Level)));
        r
    }
}

/// Section containing the parameters of the extra tone sources.
pub struct ExtraSection {}

impl ExtraSection {
    /// The parameters this section presents, in display order.
    pub open spec fn spec_params() -> Seq<SoundParameter> {
        seq![
            SoundParameter::ExtraNoise,
            SoundParameter::ExtraRingMod,
        ]
    }

    /// Constructs a new instance.
    pub fn new() -> ExtraSection {
        ExtraSection {  }
    }

    /// The rows this section displays: each parameter it presents,
    /// paired with its current value in the table.
    pub fn view_rows(&self, values: &SoundParameterValues) -> (r: Vec<(SoundParameter, i32)>)
        ensures
            r@.len() == ExtraSection::spec_params().len(),
            forall|k: int|
                0 <= k < r@.len() ==> (#[trigger] r@[k]).0 == ExtraSection::spec_params()[k]
                    && r@[k].1 == values.spec_get_value(ExtraSection::spec_params()[k]),
    {
        let mut r: Vec<(SoundParameter, i32)> = Vec::new();
        r.push((SoundParameter::ExtraNoise, values.get_value(SoundParameter::ExtraNoise)));
        r.push((SoundParameter::ExtraRingMod, values.get_value(SoundParameter::ExtraRingMod)));
        r
    }
}

/// Section containing the parameters of the filter.
pub struct FilterSection {}

impl FilterSection {
    /// The parameters this section presents, in display order.
    pub open spec fn spec_params() -> Seq<SoundParameter> {
        seq![
            SoundParameter::FilterCutoff,
            SoundParameter::FilterResonance,
            SoundParameter::FilterEnvFAmount,
            SoundParameter::FilterTrack,
            SoundParameter::FilterAfter,
            SoundParameter::FilterLFO1Amount,
        ]
    }

    /// Constructs a new instance.
    pub fn new() -> FilterSection {
        FilterSection {  }
    }

    /// The rows this section displays: each parameter it presents,
    /// paired with its current value in the table.
    pub fn view_rows(&self, values: &SoundParameterValues) -> (r: Vec<(SoundParameter, i32)>)
        ensures
            r@.len() == FilterSection::spec_params().len(),
            forall|k: int|
                0 <= k < r@.len() ==> (#[trigger] r@[k]).0 == FilterSection::spec_params()[k]
                    && r@[k].1 == values.spec_get_value(FilterSection::spec_params()[k]),
    {
        let mut r: Vec<(SoundParameter, i32)> = Vec::new();
        r.push((SoundParameter::FilterCutoff, values.get_value(SoundParameter::FilterCutoff)));
        r.push((SoundParameter::FilterResonance, values.get_value(SoundParameter::FilterResonance)));
        r.push((SoundParameter::FilterEnvFAmount, values.get_value(SoundParameter::FilterEnvFAmount)));
        r.push((SoundParameter::FilterTrack, values.get_value(SoundParameter::FilterTrack)));
        r.push((SoundParameter::FilterAfter, values.get_value(SoundParameter::FilterAfter)));
        r.push((SoundParameter::FilterLFO1Amount, values.get_value(SoundParameter::FilterLFO1Amount)));
        r
    }
}

/// Section containing the parameters of the shaper.
pub struct ShaperSection {}

impl ShaperSection {
    /// The parameters this section presents, in display order.
    pub open spec fn spec_params() -> Seq<SoundParameter> {
        seq![
            SoundParameter::ShaperCutoff,
            SoundParameter::ShaperResonance,
            SoundParameter::ShaperEnvAAmount,
            SoundParameter::ShaperTrack,
            SoundParameter::ShaperMode,
            SoundParameter::ShaperLFO2Amount,
        ]
    }

    /// Constructs a new instance.
    pub fn new() -> ShaperSection {
        ShaperSection {  }
    }

    /// The rows this section displays: each parameter it presents,
    /// paired with its current value in the table.
    pub fn view_rows(&self, values: &SoundParameterValues) -> (r: Vec<(SoundParameter, i32)>)
        ensures
            r@.len() == ShaperSection::spec_params().len(),
            forall|k: int|
                0 <= k < r@.len() ==> (#[trigger] r@[k]).0 == ShaperSection::spec_params()[k]
                    && r@[k].1 == values.spec_get_value(ShaperSection::spec_params()[k]),
    {
        let mut r: Vec<(SoundParameter, i32)> = Vec::new();
        r.push((SoundParameter::ShaperCutoff, values.get_value(SoundParameter::ShaperCutoff)));
        r.push((SoundParameter::ShaperResonance, values.get_value(SoundParameter::ShaperResonance)));
        r.push((SoundParameter::ShaperEnvAAmount, values.get_value(SoundParameter::ShaperEnvAAmount)));
        r.push((SoundParameter::ShaperTrack, values.get_value(SoundParameter::ShaperTrack)));
        r.push((SoundParameter::ShaperMode, values.get_value(SoundParameter::ShaperMode)));
        r.push((SoundParameter::ShaperLFO2Amount, values.get_value(SoundParameter::ShaperLFO2Amount)));
        r
    }
}

/// Section containing the parameters of envelope F.
pub struct EnvFSection {}

impl EnvFSection {
    /// The parameters this section presents, in display order.
    pub open spec fn spec_params() -> Seq<SoundParameter> {
        seq![
            SoundParameter::EnvFAttack,
            SoundParameter::EnvFHold,
            SoundParameter::EnvFDecay,
            SoundParameter::EnvFSustain,
            SoundParameter::EnvFRelease,
            SoundParameter::EnvFVelo,
            SoundParameter::EnvFAfter,
            SoundParameter::EnvFTrigger,
            SoundParameter::ModEnvFTarget,
            SoundParameter::ModEnvFAmount,
        ]
    }

    /// Constructs a new instance.
    pub fn new() -> EnvFSection {
        EnvFSection {  }
    }

    /// The rows this section displays: each parameter it presents,
    /// paired with its current value in the table.
    pub fn view_rows(&self, values: &SoundParameterValues) -> (r: Vec<(SoundParameter, i32)>)
        ensures
            r@.len() == EnvFSection::spec_params().len(),
            forall|k: int|
                0 <= k < r@.len() ==> (#[trigger] r@[k]).0 == EnvFSection::spec_params()[k]
                    && r@[k].1 == values.spec_get_value(EnvFSection::spec_params()[k]),
    {
        let mut r: Vec<(SoundParameter, i32)> = Vec::new();
        r.push((SoundParameter::EnvFAttack, values.get_value(SoundParameter::EnvFAttack)));
        r.push((SoundParameter::EnvFHold, values.get_value(SoundParameter::EnvFHold)));
        r.push((SoundParameter::EnvFDecay, values.get_value(SoundParameter::EnvFDecay)));
        r.push((SoundParameter::EnvFSustain, values.get_value(SoundParameter::EnvFSustain)));
        r.push((SoundParameter::EnvFRelease, values.get_value(SoundParameter::EnvFRelease)));
        r.push((SoundParameter::EnvFVelo, values.get_value(SoundParameter::EnvFVelo)));
        r.push((SoundParameter::EnvFAfter, values.get_value(SoundParameter::EnvFAfter)));
        r.push((SoundParameter::EnvFTrigger, values.get_value(SoundParameter::EnvFTrigger)));
        r.push((SoundParameter::ModEnvFTarget, values.get_value(SoundParameter::ModEnvFTarget)));
        r.push((SoundParameter::ModEnvFAmount, values.get_value(SoundParameter::ModEnvFAmount)));
        r
    }
}

/// Section containing the parameters of envelope A.
pub struct EnvASection {}

impl EnvASection {
    /// The parameters this section presents, in display order.
    pub open spec fn spec_params() -> Seq<SoundParameter> {
        seq![
            SoundParameter::EnvAAttack,
            SoundParameter::EnvAHold,
            SoundParameter::EnvADecay,
            SoundParameter::EnvASustain,
            SoundParameter::EnvARelease,
            SoundParameter::EnvAVelo,
            SoundParameter::EnvAAfter,
            SoundParameter::EnvATrigger,
            SoundParameter::ModEnvATarget,
            SoundParameter::ModEnvAAmount,
        ]
    }

    /// Constructs a new instance.
    pub fn new() -> EnvASection {
        EnvASection {  }
    }

    /// The rows this section displays: each parameter it presents,
    /// paired with its current value in the table.
    pub fn view_rows(&self, values: &SoundParameterValues) -> (r: Vec<(SoundParameter, i32)>)
        ensures
            r@.len() == EnvASection::spec_params().len(),
            forall|k: int|
                0 <= k < r@.len() ==> (#[trigger] r@[k]).0 == EnvASection::spec_params()[k]
                    && r@[k].1 == values.spec_get_value(EnvASection::spec_params()[k]),
    {
        let mut r: Vec<(SoundParameter, i32)> = Vec::new();
        r.push((SoundParameter::EnvAAttack, values.get_value(SoundParameter::EnvAAttack)));
        r.push((SoundParameter::EnvAHold, values.get_value(SoundParameter::EnvAHold)));
        r.push((SoundParameter::EnvADecay, values.get_value(SoundParameter::EnvADecay)));
        r.push((SoundParameter::EnvASustain, values.get_value(SoundParameter::EnvASustain)));
        r.push((SoundParameter::EnvARelease, values.get_value(SoundParameter::EnvARelease)));
        r.push((SoundParameter::EnvAVelo, values.get_value(SoundParameter::EnvAVelo)));
        r.push((SoundParameter::EnvAAfter, values.get_value(SoundParameter::EnvAAfter)));
        r.push((SoundParameter::EnvATrigger, values.get_value(SoundParameter::EnvATrigger)));
        r.push((SoundParameter::ModEnvATarget, values.get_value(SoundParameter::ModEnvATarget)));
        r.push((SoundParameter::ModEnvAAmount, values.get_value(SoundParameter::ModEnvAAmount)));
        r
    }
}

/// Section containing the parameters of LFO 1.
pub struct LFO1Section {}

impl LFO1Section {
    /// The parameters this section presents, in display order.
    pub open spec fn spec_params() -> Seq<SoundParameter> {
        seq![
            SoundParameter::LFO1Shape,
            SoundParameter::LFO1Speed,
            SoundParameter::LFO1Rise,
            SoundParameter::LFO1Phase,
            SoundParameter::ModLFO1Target,
            SoundParameter::ModLFO1Amount,
        ]
    }

    /// Constructs a new instance.
    pub fn new() -> LFO1Section {
        LFO1Section {  }
    }

    /// The rows this section displays: each parameter it presents,
    /// paired with its current value in the table.
    pub fn view_rows(&self, values: &SoundParameterValues) -> (r: Vec<(SoundParameter, i32)>)
        ensures
            r@.len() == LFO1Section::spec_params().len(),
            forall|k: int|
                0 <= k < r@.len() ==> (#[trigger] r@[k]).0 == LFO1Section::spec_params()[k]
                    && r@[k].1 == values.spec_get_value(LFO1Section::spec_params()[k]),
    {
        let mut r: Vec<(SoundParameter, i32)> = Vec::new();
        r.push((SoundParameter::LFO1Shape, values.get_value(SoundParameter::LFO1Shape)));
        r.push((SoundParameter::LFO1Speed, values.get_value(SoundParameter::LFO1Speed)));
        r.push((SoundParameter::LFO1Rise, values.get_value(SoundParameter::LFO1Rise)));
        r.push((SoundParameter::LFO1Phase, values.get_value(SoundParameter::LFO1Phase)));
        r.push((SoundParameter::ModLFO1Target, values.get_value(SoundParameter::ModLFO1Target)));
        r.push((SoundParameter::ModLFO1Amount, values.get_value(SoundParameter::ModLFO1Amount)));
        r
    }
}

/// Section containing the parameters of LFO 2.
pub struct LFO2Section {}

impl LFO2Section {
    /// The parameters this section presents, in display order.
    pub open spec fn spec_params() -> Seq<SoundParameter> {
        seq![
            SoundParameter::LFO2Shape,
            SoundParameter::LFO2Speed,
            SoundParameter::LFO2Rise,
            SoundParameter::LFO2Phase,
            SoundParameter::ModLFO2Target,
            SoundParameter::ModLFO2Amount,
        ]
    }

    /// Constructs a new instance.
    pub fn new() -> LFO2Section {
        LFO2Section {  }
    }

    /// The rows this section displays: each parameter it presents,
    /// paired with its current value in the table.
    pub fn view_rows(&self, values: &SoundParameterValues) -> (r: Vec<(SoundParameter, i32)>)
        ensures
            r@.len() == LFO2Section::spec_params().len(),
            forall|k: int|
                0 <= k < r@.len() ==> (#[trigger] r@[k]).0 == LFO2Section::spec_params()[k]
                    && r@[k].1 == values.spec_get_value(LFO2Section::spec_params()[k]),
    {
        let mut r: Vec<(SoundParameter, i32)> = Vec::new();
        r.push((SoundParameter::LFO2Shape, values.get_value(SoundParameter::LFO2Shape)));
        r.push((SoundParameter::LFO2Speed, values.get_value(SoundParameter::LFO2Speed)));
        r.push((SoundParameter::LFO2Rise, values.get_value(SoundParameter::LFO2Rise)));
        r.push((SoundParameter::LFO2Phase, values.get_value(SoundParameter::LFO2Phase)));
        r.push((SoundParameter::ModLFO2Target, values.get_value(SoundParameter::ModLFO2Target)));
        r.push((SoundParameter::ModLFO2Amount, values.get_value(SoundParameter::ModLFO2Amount)));
        r
    }
}

/// Section containing the parameters of the arpeggiator.
pub struct ArpSection {}

impl ArpSection {
    /// The parameters this section presents, in display order.
    pub open spec fn spec_params() -> Seq<SoundParameter> {
        seq![
            SoundParameter::ArpMode,
            SoundParameter::ArpGrid,
            SoundParameter::ArpTempo,
            SoundParameter::ArpHold,
        ]
    }

    /// Constructs a new instance.
    pub fn new() -> ArpSection {
        ArpSection {  }
    }

    /// The rows this section displays: each parameter it presents,
    /// paired with its current value in the table.
    pub fn view_rows(&self, values: &SoundParameterValues) -> (r: Vec<(SoundParameter, i32)>)
        ensures
            r@.len() == ArpSection::spec_params().len(),
            forall|k: int|
                0 <= k < r@.len() ==> (#[trigger] r@[k]).0 == ArpSection::spec_params()[k]
                    && r@[k].1 == values.spec_get_value(ArpSection::spec_params()[k]),
    {
        let mut r: Vec<(SoundParameter, i32)> = Vec::new();
        r.push((SoundParameter::ArpMode, values.get_value(SoundParameter::ArpMode)));
        r.push((SoundParameter::ArpGrid, values.get_value(SoundParameter::ArpGrid)));
        r.push((SoundParameter::ArpTempo, values.get_value(SoundParameter::ArpTempo)));
        r.push((SoundParameter::ArpHold, values.get_value(SoundParameter::ArpHold)));
        r
    }
}

/// Section containing the parameters of the amplifier.
pub struct AmpSection {}

impl AmpSection {
    /// The parameters this section presents, in display order.
    pub open spec fn spec_params() -> Seq<SoundParameter> {
        seq![
            SoundParameter::AmpLevel,
            SoundParameter::AmpPan,
        ]
    }

    /// Constructs a new instance.
    pub fn new() -> AmpSection {
        AmpSection {  }
    }

    /// The rows this section displays: each parameter it presents,
    /// paired with its current value in the table.
    pub fn view_rows(&self, values: &SoundParameterValues) -> (r: Vec<(SoundParameter, i32)>)
        ensures
            r@.len() == AmpSection::spec_params().len(),
            forall|k: int|
                0 <= k < r@.len() ==> (#[trigger] r@[k]).0 == AmpSection::spec_params()[k]
                    && r@[k].1 == values.spec_get_value(AmpSection::spec_params()[k]),
    {
        let mut r: Vec<(SoundParameter, i32)> = Vec::new();
        r.push((SoundParameter::AmpLevel, values.get_value(SoundParameter::AmpLevel)));
        r.push((SoundParameter::AmpPan, values.get_value(SoundParameter::AmpPan)));
        r
    }
}

/// Section containing the parameters of the remaining voice settings.
pub struct MiscSection {}

impl MiscSection {
    /// The parameters this section presents, in display order.
    pub open spec fn spec_params() -> Seq<SoundParameter> {
        seq![
            SoundParameter::BendRange,
            SoundParameter::Tune,
            SoundParameter::PolyMode,
        ]
    }

    /// Constructs a new instance.
    pub fn new() -> MiscSection {
        MiscSection {  }
    }

    /// The rows this section displays: each parameter it presents,
    /// paired with its current value in the table.
    pub fn view_rows(&self, values: &SoundParameterValues) -> (r: Vec<(SoundParameter, i32)>)
        ensures
            r@.len() == MiscSection::spec_params().len(),
            forall|k: int|
                0 <= k < r@.len() ==> (#[trigger] r@[k]).0 == MiscSection::spec_params()[k]
                    && r@[k].1 == values.spec_get_value(MiscSection::spec_params()[k]),
    {
        let mut r: Vec<(SoundParameter, i32)> = Vec::new();
        r.push((SoundParameter::BendRange, values.get_value(SoundParameter::BendRange)));
        r.push((SoundParameter::Tune, values.get_value(SoundParameter::Tune)));
        r.push((SoundParameter::PolyMode, values.get_value(SoundParameter::PolyMode)));
        r
    }
}

/// Section containing the parameters of the performance modulation slots.
pub struct ModSection {}

impl ModSection {
    /// The parameters this section presents, in display order.
    pub open spec fn spec_params() -> Seq<SoundParameter> {
        seq![
            SoundParameter::ModModwheelTarget,
            SoundParameter::ModModwheelAmount,
            SoundParameter::ModPitchTarget,
            SoundParameter::ModPitchAmount,
            SoundParameter::ModVelocityTarget,
            SoundParameter::ModVelocityAmount,
            SoundParameter::ModAftertouchTarget,
            SoundParameter::ModAftertouchAmount,
        ]
    }

    /// Constructs a new instance.
    pub fn new() -> ModSection {
        ModSection {  }
    }

    /// The rows this section displays: each parameter it presents,
    /// paired with its current value in the table.
    pub fn view_rows(&self, values: &SoundParameterValues) -> (r: Vec<(SoundParameter, i32)>)
        ensures
            r@.len() == ModSection::spec_params().len(),
            forall|k: int|
                0 <= k < r@.len() ==> (#[trigger] r@[k]).0 == ModSection::spec_params()[k]
                    && r@[k].1 == values.spec_get_value(ModSection::spec_params()[k]),
    {
        let mut r: Vec<(SoundParameter, i32)> = Vec::new();
        r.push((SoundParameter::ModModwheelTarget, values.get_value(SoundParameter::ModModwheelTarget)));
        r.push((SoundParameter::ModModwheelAmount, values.get_value(SoundParameter::ModModwheelAmount)));
        r.push((SoundParameter::ModPitchTarget, values.get_value(SoundParameter::ModPitchTarget)));
        r.push((SoundParameter::ModPitchAmount, values.get_value(SoundParameter::ModPitchAmount)));
        r.push((SoundParameter::ModVelocityTarget, values.get_value(SoundParameter::ModVelocityTarget)));
        r.push((SoundParameter::ModVelocityAmount, values.get_value(SoundParameter::ModVelocityAmount)));
        r.push((SoundParameter::ModAftertouchTarget, values.get_value(SoundParameter::ModAftertouchTarget)));
        r.push((SoundParameter::ModAftertouchAmount, values.get_value(SoundParameter::ModAftertouchAmount)));
        r
    }
}

/// Section containing the parameters of the part MIDI channels.
pub struct MidiSection {}

impl MidiSection {
    /// The parameters this section presents, in display order.
    pub open spec fn spec_params() -> Seq<MultiParameter> {
        seq![
            MultiParameter::ChannelPart1,
            MultiParameter::ChannelPart2,
            MultiParameter::ChannelPart3,
            MultiParameter::ChannelPart4,
        ]
    }

    /// Constructs a new instance.
    pub fn new() -> MidiSection {
        MidiSection {  }
    }

    /// The rows this section displays: each parameter it presents,
    /// paired with its current value in the table.
    pub fn view_rows(&self, values: &MultiParameterValues) -> (r: Vec<(MultiParameter, i32)>)
        ensures
            r@.len() == MidiSection::spec_params().len(),
            forall|k: int|
                0 <= k < r@.len() ==> (#[trigger] r@[k]).0 == MidiSection::spec_params()[k]
                    && r@[k].1 == values.spec_get_value(MidiSection::spec_params()[k]),
    {
        let mut r: Vec<(MultiParameter, i32)> = Vec::new();
        r.push((MultiParameter::ChannelPart1, values.get_value(MultiParameter::ChannelPart1)));
        r.push((MultiParameter::ChannelPart2, values.get_value(MultiParameter::ChannelPart2)));
        r.push((MultiParameter::ChannelPart3, values.get_value(MultiParameter::ChannelPart3)));
        r.push((MultiParameter::ChannelPart4, values.get_value(MultiParameter::ChannelPart4)));
        r
    }
}

/// Section containing the parameters of the part mixer.
pub struct MixerSection {}

impl MixerSection {
    /// The parameters this section presents, in display order.
    pub open spec fn spec_params() -> Seq<MultiParameter> {
        seq![
            MultiParameter::VolumePart1,
            MultiParameter::BalancePart1,
            MultiParameter::VolumePart2,
            MultiParameter::BalancePart2,
            MultiParameter::VolumePart3,
            MultiParameter::BalancePart3,
            MultiParameter::VolumePart4,
            MultiParameter::BalancePart4,
        ]
    }

    /// Constructs a new instance.
    pub fn new() -> MixerSection {
        MixerSection {  }
    }

    /// The rows this section displays: each parameter it presents,
    /// paired with its current value in the table.
    pub fn view_rows(&self, values: &MultiParameterValues) -> (r: Vec<(MultiParameter, i32)>)
        ensures
            r@.len() == MixerSection::spec_params().len(),
            forall|k: int|
                0 <= k < r@.len() ==> (#[trigger] r@[k]).0 == MixerSection::spec_params()[k]
                    && r@[k].1 == values.spec_get_value(MixerSection::spec_params()[k]),
    {
        let mut r: Vec<(MultiParameter, i32)> = Vec::new();
        r.push((MultiParameter::VolumePart1, values.get_value(MultiParameter::VolumePart1)));
        r.push((MultiParameter::BalancePart1, values.get_value(MultiParameter::BalancePart1)));
        r.push((MultiParameter::VolumePart2, values.get_value(MultiParameter::VolumePart2)));
        r.push((MultiParameter::BalancePart2, values.get_value(MultiParameter::BalancePart2)));
        r.push((MultiParameter::VolumePart3, values.get_value(MultiParameter::VolumePart3)));
        r.push((MultiParameter::BalancePart3, values.get_value(MultiParameter::BalancePart3)));
        r.push((MultiParameter::VolumePart4, values.get_value(MultiParameter::VolumePart4)));
        r.push((MultiParameter::BalancePart4, values.get_value(MultiParameter::BalancePart4)));
        r
    }
}

/// Section containing the parameters of the effect unit.
pub struct FXSection {}

impl FXSection {
    /// The parameters this section presents, in display order.
    pub open spec fn spec_params() -> Seq<MultiParameter> {
        seq![
            MultiParameter::FXMode,
            MultiParameter::FXLength,
            MultiParameter::FXFeedback,
            MultiParameter::FXMix,
            MultiParameter::FXSpeed,
            MultiParameter::FXDepth,
        ]
    }

    /// Constructs a new instance.
    pub fn new() -> FXSection {
        FXSection {  }
    }

    /// The rows this section displays: each parameter it presents,
    /// paired with its current value in the table.
    pub fn view_rows(&self, values: &MultiParameterValues) -> (r: Vec<(MultiParameter, i32)>)
        ensures
            r@.len() == FXSection::spec_params().len(),
            forall|k: int|
                0 <= k < r@.len() ==> (#[trigger] r@[k]).0 == FXSection::spec_params()[k]
                    && r@[k].1 == values.spec_get_value(FXSection::spec_params()[k]),
    {
        let mut r: Vec<(MultiParameter, i32)> = Vec::new();
        r.push((MultiParameter::FXMode, values.get_value(MultiParameter::FXMode)));
        r.push((MultiParameter::FXLength, values.get_value(MultiParameter::FXLength)));
        r.push((MultiParameter::FXFeedback, values.get_value(MultiParameter::FXFeedback)));
        r.push((MultiParameter::FXMix, values.get_value(MultiParameter::FXMix)));
        r.push((MultiParameter::FXSpeed, values.get_value(MultiParameter::FXSpeed)));
        r.push((MultiParameter::FXDepth, values.get_value(MultiParameter::FXDepth)));
        r
    }
}

/// Panel containing the sound (preset) parameter sections.
pub struct SoundPanel {
    /// Section for oscillator 1.
    pub osc1_section: Osc1Section,
    /// Section for oscillator 2.
    pub osc2_section: Osc2Section,
    /// Section for the extra tone sources.
    pub extra_section: ExtraSection,
    /// Section for the shaper.
    pub shaper_section: ShaperSection,
    /// Section for the filter.
    pub filter_section: FilterSection,
    /// Section for the amplifier.
    pub amp_section: AmpSection,
    /// Section for LFO 1.
    pub lfo1_section: LFO1Section,
    /// Section for LFO 2.
    pub lfo2_section: LFO2Section,
    /// Section for envelope F.
    pub envf_section: EnvFSection,
    /// Section for envelope A.
    pub enva_section: EnvASection,
    /// Section for the arpeggiator.
    pub arp_section: ArpSection,
    /// Section for the remaining voice settings.
    pub misc_section: MiscSection,
    /// Section for the performance modulation slots.
    pub mod_section: ModSection,
}

impl SoundPanel {
    /// Constructs a new instance.
    pub fn new() -> SoundPanel {
        SoundPanel {
            osc1_section: Osc1Section::new(),
            osc2_section: Osc2Section::new(),
            extra_section: ExtraSection::new(),
            shaper_section: ShaperSection::new(),
            filter_section: FilterSection::new(),
            amp_section: AmpSection::new(),
            lfo1_section: LFO1Section::new(),
            lfo2_section: LFO2Section::new(),
            envf_section: EnvFSection::new(),
            enva_section: EnvASection::new(),
            arp_section: ArpSection::new(),
            misc_section: MiscSection::new(),
            mod_section: ModSection::new(),
        }
    }
}

/// Panel containing the multi parameter sections.
pub struct MultiPanel {
    /// Section for the part MIDI channels.
    pub midi_section: MidiSection,
    /// Section for the part mixer.
    pub mixer_section: MixerSection,
    /// Section for the effect unit.
    pub fx_section: FXSection,
}

impl MultiPanel {
    /// Constructs a new instance.
    pub fn new() -> MultiPanel {
        MultiPanel {
            midi_section: MidiSection::new(),
            mixer_section: MixerSection::new(),
            fx_section: FXSection::new(),
        }
    }
}

/// Panel containing the global controls: the part selector and the actions
/// that drive the session.  It carries no state of its own.
pub struct ManagerPanel {}

impl ManagerPanel {
    /// Constructs a new instance.
    pub fn new() -> ManagerPanel {
        ManagerPanel {  }
    }
}

} // verus!
