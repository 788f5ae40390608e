//! The Control-Change mapping: a subset of the sound parameters is also
//! reachable over plain 3-byte Control-Change messages, under a fixed
//! controller number and a linear rescale between the parameter range and
//! the 7-bit CC range.  The table is reversible: controller numbers and
//! parameters correspond one to one.

use vstd::prelude::*;

verus! {

use crate::params::SoundParameter;
use vstd::arithmetic::div_mod::lemma_div_is_ordered;
use vstd::arithmetic::div_mod::lemma_div_multiples_vanish;
use vstd::arithmetic::div_mod::lemma_div_pos_is_pos;
use vstd::arithmetic::div_mod::lemma_fundamental_div_mod;
use vstd::arithmetic::div_mod::lemma_mod_division_less_than_divisor;
use vstd::arithmetic::mul::lemma_mul_inequality;
use vstd::arithmetic::mul::lemma_mul_is_commutative;

/// Controller number assigned to a sound parameter, if it has one.
pub open spec fn cc_number(p: SoundParameter) -> Option<u8> {
    match p {
        SoundParameter::Osc1Wave => Some(70u8),
        SoundParameter::Osc1Coarse => Some(21u8),
        SoundParameter::Osc1FMAmount => Some(22u8),
        SoundParameter::Osc1Level => Some(23u8),
        SoundParameter::Osc1Table => Some(24u8),
        SoundParameter::Osc1Fine => Some(25u8),
        SoundParameter::Osc1FMRate => Some(26u8),
        SoundParameter::Osc1Sync => Some(27u8),
        SoundParameter::Osc2Wave => Some(77u8),
        SoundParameter::Osc2FMAmount => Some(32u8),
        SoundParameter::Osc2Level => Some(33u8),
        SoundParameter::Osc2Coarse => Some(31u8),
        SoundParameter::Osc2Table => Some(34u8),
        SoundParameter::Osc2Fine => Some(35u8),
        SoundParameter::Osc2FMRate => Some(36u8),
        SoundParameter::Osc2Sync => Some(37u8),
        SoundParameter::ExtraNoise => Some(78u8),
        SoundParameter::ExtraRingMod => Some(79u8),
        SoundParameter::FilterCutoff => Some(74u8),
        SoundParameter::FilterResonance => Some(71u8),
        SoundParameter::FilterEnvFAmount => Some(54u8),
        SoundParameter::FilterTrack => Some(55u8),
        SoundParameter::FilterAfter => Some(56u8),
        SoundParameter::FilterLFO1Amount => Some(57u8),
        SoundParameter::ShaperCutoff => Some(75u8),
        SoundParameter::ShaperResonance => Some(76u8),
        SoundParameter::ShaperEnvAAmount => Some(58u8),
        SoundParameter::ShaperTrack => Some(59u8),
        SoundParameter::ShaperMode => Some(60u8),
        SoundParameter::ShaperLFO2Amount => Some(61u8),
        SoundParameter::EnvFAttack => Some(46u8),
        SoundParameter::EnvFDecay => Some(47u8),
        SoundParameter::EnvFSustain => Some(48u8),
        SoundParameter::EnvFRelease => Some(49u8),
        SoundParameter::EnvFVelo => Some(51u8),
        SoundParameter::EnvFHold => Some(50u8),
        SoundParameter::EnvFAfter => Some(52u8),
        SoundParameter::EnvFTrigger => Some(53u8),
        SoundParameter::EnvAAttack => Some(73u8),
        SoundParameter::EnvADecay => Some(40u8),
        SoundParameter::EnvASustain => Some(41u8),
        SoundParameter::EnvARelease => Some(72u8),
        SoundParameter::EnvAVelo => Some(43u8),
        SoundParameter::EnvAHold => Some(42u8),
        SoundParameter::EnvAAfter => Some(44u8),
        SoundParameter::EnvATrigger => Some(45u8),
        SoundParameter::LFO1Shape => Some(102u8),
        SoundParameter::LFO1Speed => Some(103u8),
        SoundParameter::LFO1Rise => Some(104u8),
        SoundParameter::LFO1Phase => Some(105u8),
        SoundParameter::LFO2Shape => Some(106u8),
        SoundParameter::LFO2Speed => Some(107u8),
        SoundParameter::LFO2Rise => Some(108u8),
        SoundParameter::LFO2Phase => Some(109u8),
        SoundParameter::ArpMode => Some(110u8),
        SoundParameter::ArpGrid => Some(111u8),
        SoundParameter::ArpTempo => Some(112u8),
        SoundParameter::ArpHold => Some(113u8),
        SoundParameter::AmpLevel => Some(80u8),
        SoundParameter::AmpPan => Some(81u8),
        SoundParameter::ModEnvFAmount => Some(17u8),
        SoundParameter::ModEnvAAmount => Some(18u8),
        SoundParameter::ModLFO1Amount => Some(19u8),
        SoundParameter::ModLFO2Amount => Some(20u8),
        SoundParameter::ModModwheelAmount => Some(87u8),
        SoundParameter::ModPitchAmount => Some(88u8),
        SoundParameter::ModVelocityAmount => Some(89u8),
        SoundParameter::ModAftertouchAmount => Some(90u8),
        SoundParameter::BendRange => Some(84u8),
        SoundParameter::Tune => Some(85u8),
        SoundParameter::ModEnvFTarget => None,
        SoundParameter::ModEnvATarget => None,
        SoundParameter::ModLFO1Target => None,
        SoundParameter::ModLFO2Target => None,
        SoundParameter::ModModwheelTarget => None,
        SoundParameter::ModPitchTarget => None,
        SoundParameter::ModVelocityTarget => None,
        SoundParameter::ModAftertouchTarget => None,
        SoundParameter::PolyMode => None,
    }
}

/// Sound parameter assigned to a controller number, if any.
pub open spec fn cc_param(n: u8) -> Option<SoundParameter> {
    if n == 17 {
        Some(SoundParameter::ModEnvFAmount)
    } else if n == 18 {
        Some(SoundParameter::ModEnvAAmount)
    } else if n == 19 {
        Some(SoundParameter::ModLFO1Amount)
    } else if n == 20 {
        Some(SoundParameter::ModLFO2Amount)
    } else if n == 21 {
        Some(SoundParameter::Osc1Coarse)
    } else if n == 22 {
        Some(SoundParameter::Osc1FMAmount)
    } else if n == 23 {
        Some(SoundParameter::Osc1Level)
    } else if n == 24 {
        Some(SoundParameter::Osc1Table)
    } else if n == 25 {
        Some(SoundParameter::Osc1Fine)
    } else if n == 26 {
        Some(SoundParameter::Osc1FMRate)
    } else if n == 27 {
        Some(SoundParameter::Osc1Sync)
    } else if n == 31 {
        Some(SoundParameter::Osc2Coarse)
    } else if n == 32 {
        Some(SoundParameter::Osc2FMAmount)
    } else if n == 33 {
        Some(SoundParameter::Osc2Level)
    } else if n == 34 {
        Some(SoundParameter::Osc2Table)
    } else if n == 35 {
        Some(SoundParameter::Osc2Fine)
    } else if n == 36 {
        Some(SoundParameter::Osc2FMRate)
    } else if n == 37 {
        Some(SoundParameter::Osc2Sync)
    } else if n == 40 {
        Some(SoundParameter::EnvADecay)
    } else if n == 41 {
        Some(SoundParameter::EnvASustain)
    } else if n == 42 {
        Some(SoundParameter::EnvAHold)
    } else if n == 43 {
        Some(SoundParameter::EnvAVelo)
    } else if n == 44 {
        Some(SoundParameter::EnvAAfter)
    } else if n == 45 {
        Some(SoundParameter::EnvATrigger)
    } else if n == 46 {
        Some(SoundParameter::EnvFAttack)
    } else if n == 47 {
        Some(SoundParameter::EnvFDecay)
    } else if n == 48 {
        Some(SoundParameter::EnvFSustain)
    } else if n == 49 {
        Some(SoundParameter::EnvFRelease)
    } else if n == 50 {
        Some(SoundParameter::EnvFHold)
    } else if n == 51 {
        Some(SoundParameter::EnvFVelo)
    } else if n == 52 {
        Some(SoundParameter::EnvFAfter)
    } else if n == 53 {
        Some(SoundParameter::EnvFTrigger)
    } else if n == 54 {
        Some(SoundParameter::FilterEnvFAmount)
    } else if n == 55 {
        Some(SoundParameter::FilterTrack)
    } else if n == 56 {
        Some(SoundParameter::FilterAfter)
    } else if n == 57 {
        Some(SoundParameter::FilterLFO1Amount)
    } else if n == 58 {
        Some(SoundParameter::ShaperEnvAAmount)
    } else if n == 59 {
        Some(SoundParameter::ShaperTrack)
    } else if n == 60 {
        Some(SoundParameter::ShaperMode)
    } else if n == 61 {
        Some(SoundParameter::ShaperLFO2Amount)
    } else if n == 70 {
        Some(SoundParameter::Osc1Wave)
    } else if n == 71 {
        Some(SoundParameter::FilterResonance)
    } else if n == 72 {
        Some(SoundParameter::EnvARelease)
    } else if n == 73 {
        Some(SoundParameter::EnvAAttack)
    } else if n == 74 {
        Some(SoundParameter::FilterCutoff)
    } else if n == 75 {
        Some(SoundParameter::ShaperCutoff)
    } else if n == 76 {
        Some(SoundParameter::ShaperResonance)
    } else if n == 77 {
        Some(SoundParameter::Osc2Wave)
    } else if n == 78 {
        Some(SoundParameter::ExtraNoise)
    } else if n == 79 {
        Some(SoundParameter::ExtraRingMod)
    } else if n == 80 {
        Some(SoundParameter::AmpLevel)
    } else if n == 81 {
        Some(SoundParameter::AmpPan)
    } else if n == 84 {
        Some(SoundParameter::BendRange)
    } else if n == 85 {
        Some(SoundParameter::Tune)
    } else if n == 87 {
        Some(SoundParameter::ModModwheelAmount)
    } else if n == 88 {
        Some(SoundParameter::ModPitchAmount)
    } else if n == 89 {
        Some(SoundParameter::ModVelocityAmount)
    } else if n == 90 {
        Some(SoundParameter::ModAftertouchAmount)
    } else if n == 102 {
        Some(SoundParameter::LFO1Shape)
    } else if n == 103 {
        Some(SoundParameter::LFO1Speed)
    } else if n == 104 {
        Some(SoundParameter::LFO1Rise)
    } else if n == 105 {
        Some(SoundParameter::LFO1Phase)
    } else if n == 106 {
        Some(SoundParameter::LFO2Shape)
    } else if n == 107 {
        Some(SoundParameter::LFO2Speed)
    } else if n == 108 {
        Some(SoundParameter::LFO2Rise)
    } else if n == 109 {
        Some(SoundParameter::LFO2Phase)
    } else if n == 110 {
        Some(SoundParameter::ArpMode)
    } else if n == 111 {
        Some(SoundParameter::ArpGrid)
    } else if n == 112 {
        Some(SoundParameter::ArpTempo)
    } else if n == 113 {
        Some(SoundParameter::ArpHold)
    } else {
        None
    }
}

/// A parameter value moved linearly from `[lo, hi]` onto the CC range,
/// rounding towards zero.
pub open spec fn rescale_to_cc(v: int, lo: int, hi: int) -> int
    recommends
        lo < hi,
        lo <= v <= hi,
{
    ((v - lo) * 127) / (hi - lo)
}

/// A CC value moved linearly back onto the parameter range `[lo, hi]`,
/// rounding towards zero.
pub open spec fn rescale_from_cc(c: int, lo: int, hi: int) -> int
    recommends
        lo < hi,
        0 <= c <= 127,
{
    (c * (hi - lo)) / 127 + lo
}

/// What [`sound_param_to_cc`] returns: the controller number and the
/// rescaled value for a mapped parameter, nothing for an unmapped one.
pub open spec fn sound_param_cc_spec(p: SoundParameter, v: int) -> Option<(u8, u8)> {
    match cc_number(p) {
        Some(n) => Some((n, rescale_to_cc(v, p.spec_min(), p.spec_max()) as u8)),
        None => None,
    }
}

/// What [`cc_to_sound_param`] returns: the mapped parameter and the value
/// rescaled onto its range for an assigned controller number, nothing for
/// an unassigned one.
pub open spec fn cc_sound_param_spec(n: u8, c: int) -> Option<(SoundParameter, i32)> {
    match cc_param(n) {
        Some(p) => Some((p, rescale_from_cc(c, p.spec_min(), p.spec_max()) as i32)),
        None => None,
    }
}

/// Controller number of the parameter, for building CC messages.
fn cc_number_of(param: &SoundParameter) -> (r: Option<u8>)
    ensures
        r == cc_number(*param),
{
    match param {
        SoundParameter::Osc1Wave => Some(70),
        SoundParameter::Osc1Coarse => Some(21),
        SoundParameter::Osc1FMAmount => Some(22),
        SoundParameter::Osc1Level => Some(23),
        SoundParameter::Osc1Table => Some(24),
        SoundParameter::Osc1Fine => Some(25),
        SoundParameter::Osc1FMRate => Some(26),
        SoundParameter::Osc1Sync => Some(27),
        SoundParameter::Osc2Wave => Some(77),
        SoundParameter::Osc2FMAmount => Some(32),
        SoundParameter::Osc2Level => Some(33),
        SoundParameter::Osc2Coarse => Some(31),
        SoundParameter::Osc2Table => Some(34),
        SoundParameter::Osc2Fine => Some(35),
        SoundParameter::Osc2FMRate => Some(36),
        SoundParameter::Osc2Sync => Some(37),
        SoundParameter::ExtraNoise => Some(78),
        SoundParameter::ExtraRingMod => Some(79),
        SoundParameter::FilterCutoff => Some(74),
        SoundParameter::FilterResonance => Some(71),
        SoundParameter::FilterEnvFAmount => Some(54),
        SoundParameter::FilterTrack => Some(55),
        SoundParameter::FilterAfter => Some(56),
        SoundParameter::FilterLFO1Amount => Some(57),
        SoundParameter::ShaperCutoff => Some(75),
        SoundParameter::ShaperResonance => Some(76),
        SoundParameter::ShaperEnvAAmount => Some(58),
        SoundParameter::ShaperTrack => Some(59),
        SoundParameter::ShaperMode => Some(60),
        SoundParameter::ShaperLFO2Amount => Some(61),
        SoundParameter::EnvFAttack => Some(46),
        SoundParameter::EnvFDecay => Some(47),
        SoundParameter::EnvFSustain => Some(48),
        SoundParameter::EnvFRelease => Some(49),
        SoundParameter::EnvFVelo => Some(51),
        SoundParameter::EnvFHold => Some(50),
        SoundParameter::EnvFAfter => Some(52),
        SoundParameter::EnvFTrigger => Some(53),
        SoundParameter::EnvAAttack => Some(73),
        SoundParameter::EnvADecay => Some(40),
        SoundParameter::EnvASustain => Some(41),
        SoundParameter::EnvARelease => Some(72),
        SoundParameter::EnvAVelo => Some(43),
        SoundParameter::EnvAHold => Some(42),
        SoundParameter::EnvAAfter => Some(44),
        SoundParameter::EnvATrigger => Some(45),
        SoundParameter::LFO1Shape => Some(102),
        SoundParameter::LFO1Speed => Some(103),
        SoundParameter::LFO1Rise => Some(104),
        SoundParameter::LFO1Phase => Some(105),
        SoundParameter::LFO2Shape => Some(106),
        SoundParameter::LFO2Speed => Some(107),
        SoundParameter::LFO2Rise => Some(108),
        SoundParameter::LFO2Phase => Some(109),
        SoundParameter::ArpMode => Some(110),
        SoundParameter::ArpGrid => Some(111),
        SoundParameter::ArpTempo => Some(112),
        SoundParameter::ArpHold => Some(113),
        SoundParameter::AmpLevel => Some(80),
        SoundParameter::AmpPan => Some(81),
        SoundParameter::ModEnvFAmount => Some(17),
        SoundParameter::ModEnvAAmount => Some(18),
        SoundParameter::ModLFO1Amount => Some(19),
        SoundParameter::ModLFO2Amount => Some(20),
        SoundParameter::ModModwheelAmount => Some(87),
        SoundParameter::ModPitchAmount => Some(88),
        SoundParameter::ModVelocityAmount => Some(89),
        SoundParameter::ModAftertouchAmount => Some(90),
        SoundParameter::BendRange => Some(84),
        SoundParameter::Tune => Some(85),
        SoundParameter::ModEnvFTarget
        | SoundParameter::ModEnvATarget
        | SoundParameter::ModLFO1Target
        | SoundParameter::ModLFO2Target
        | SoundParameter::ModModwheelTarget
        | SoundParameter::ModPitchTarget
        | SoundParameter::ModVelocityTarget
        | SoundParameter::ModAftertouchTarget
        | SoundParameter::PolyMode => None,
    }
}

/// Parameter assigned to the controller number, for decoding CC messages.
fn cc_param_of(cc_num: u8) -> (r: Option<SoundParameter>)
    ensures
        r == cc_param(cc_num),
{
    match cc_num {
        17 => Some(SoundParameter::ModEnvFAmount),
        18 => Some(SoundParameter::ModEnvAAmount),
        19 => Some(SoundParameter::ModLFO1Amount),
        20 => Some(SoundParameter::ModLFO2Amount),
        21 => Some(SoundParameter::Osc1Coarse),
        22 => Some(SoundParameter::Osc1FMAmount),
        23 => Some(SoundParameter::Osc1Level),
        24 => Some(SoundParameter::Osc1Table),
        25 => Some(SoundParameter::Osc1Fine),
        26 => Some(SoundParameter::Osc1FMRate),
        27 => Some(SoundParameter::Osc1Sync),
        31 => Some(SoundParameter::Osc2Coarse),
        32 => Some(SoundParameter::Osc2FMAmount),
        33 => Some(SoundParameter::Osc2Level),
        34 => Some(SoundParameter::Osc2Table),
        35 => Some(SoundParameter::Osc2Fine),
        36 => Some(SoundParameter::Osc2FMRate),
        37 => Some(SoundParameter::Osc2Sync),
        40 => Some(SoundParameter::EnvADecay),
        41 => Some(SoundParameter::EnvASustain),
        42 => Some(SoundParameter::EnvAHold),
        43 => Some(SoundParameter::EnvAVelo),
        44 => Some(SoundParameter::EnvAAfter),
        45 => Some(SoundParameter::EnvATrigger),
        46 => Some(SoundParameter::EnvFAttack),
        47 => Some(SoundParameter::EnvFDecay),
        48 => Some(SoundParameter::EnvFSustain),
        49 => Some(SoundParameter::EnvFRelease),
        50 => Some(SoundParameter::EnvFHold),
        51 => Some(SoundParameter::EnvFVelo),
        52 => Some(SoundParameter::EnvFAfter),
        53 => Some(SoundParameter::EnvFTrigger),
        54 => Some(SoundParameter::FilterEnvFAmount),
        55 => Some(SoundParameter::FilterTrack),
        56 => Some(SoundParameter::FilterAfter),
        57 => Some(SoundParameter::FilterLFO1Amount),
        58 => Some(SoundParameter::ShaperEnvAAmount),
        59 => Some(SoundParameter::ShaperTrack),
        60 => Some(SoundParameter::ShaperMode),
        61 => Some(SoundParameter::ShaperLFO2Amount),
        70 => Some(SoundParameter::Osc1Wave),
        71 => Some(SoundParameter::FilterResonance),
        72 => Some(SoundParameter::EnvARelease),
        73 => Some(SoundParameter::EnvAAttack),
        74 => Some(SoundParameter::FilterCutoff),
        75 => Some(SoundParameter::ShaperCutoff),
        76 => Some(SoundParameter::ShaperResonance),
        77 => Some(SoundParameter::Osc2Wave),
        78 => Some(SoundParameter::ExtraNoise),
        79 => Some(SoundParameter::ExtraRingMod),
        80 => Some(SoundParameter::AmpLevel),
        81 => Some(SoundParameter::AmpPan),
        84 => Some(SoundParameter::BendRange),
        85 => Some(SoundParameter::Tune),
        87 => Some(SoundParameter::ModModwheelAmount),
        88 => Some(SoundParameter::ModPitchAmount),
        89 => Some(SoundParameter::ModVelocityAmount),
        90 => Some(SoundParameter::ModAftertouchAmount),
        102 => Some(SoundParameter::LFO1Shape),
        103 => Some(SoundParameter::LFO1Speed),
        104 => Some(SoundParameter::LFO1Rise),
        105 => Some(SoundParameter::LFO1Phase),
        106 => Some(SoundParameter::LFO2Shape),
        107 => Some(SoundParameter::LFO2Speed),
        108 => Some(SoundParameter::LFO2Rise),
        109 => Some(SoundParameter::LFO2Phase),
        110 => Some(SoundParameter::ArpMode),
        111 => Some(SoundParameter::ArpGrid),
        112 => Some(SoundParameter::ArpTempo),
        113 => Some(SoundParameter::ArpHold),
        _ => None,
    }
}

/// Converts a sound parameter to its corresponding MIDI CC.
pub fn sound_param_to_cc(param: &SoundParameter, value: i32) -> (r: Option<(u8, u8)>)
    requires
        param.in_range(value as int),
    ensures
        r == sound_param_cc_spec(*param, value as int),
{
    let cc_num = cc_number_of(param);
    if cc_num.is_none() {
        return None;
    }
    let b = param.range_bounds();
    proof {
        lemma_sound_range_nonempty(*param);
        lemma_rescale_to_cc_bounds(value as int, b.0 as int, b.1 as int);
    }
    let cc_value: u8 = ((((value - b.0) as u32) * 127) / ((b.1 - b.0) as u32)) as u8;
    Some((cc_num.unwrap(), cc_value))
}

/// Converts a MIDI CC to its corresponding sound parameter.
pub fn cc_to_sound_param(cc_num: u8, cc_value: u8) -> (r: Option<(SoundParameter, i32)>)
    requires
        cc_value <= 127,
    ensures
        r == cc_sound_param_spec(cc_num, cc_value as int),
{
    let param = cc_param_of(cc_num);
    if param.is_none() {
        return None;
    }
    let param = param.unwrap();
    let b = param.range_bounds();
    proof {
        lemma_sound_range_nonempty(param);
        lemma_rescale_from_cc_bounds(cc_value as int, b.0 as int, b.1 as int);
    }
    let span: u32 = ((cc_value as u32) * ((b.1 - b.0) as u32)) / 127;
    let value: i32 = (span as i32) + b.0;
    Some((param, value))
}


/// The Control-Change message that pushes `value` of `param` on `channel`:
/// a status byte carrying the channel, the controller number and the
/// rescaled value.  Parameters without a CC mapping yield no message.
pub open spec fn cc_message_spec(channel: u8, p: SoundParameter, v: int) -> Option<Seq<u8>> {
    match cc_number(p) {
        Some(n) => Some(
            seq![0xB0 | channel, n, rescale_to_cc(v, p.spec_min(), p.spec_max()) as u8],
        ),
        None => None,
    }
}

/// Build the Control-Change message that sends a sound parameter value on
/// the given channel, if the parameter is reachable over CC.
pub fn cc_message(channel: u8, param: &SoundParameter, value: i32) -> (r: Option<Vec<u8>>)
    requires
        channel <= 15,
        param.in_range(value as int),
    ensures
        cc_message_spec(channel, *param, value as int) is None ==> r is None,
        cc_message_spec(channel, *param, value as int) matches Some(m) ==> (r matches Some(f)
            && f@ == m),
{
    match sound_param_to_cc(param, value) {
        Some((cc_num, cc_value)) => {
            let mut f: Vec<u8> = Vec::new();
            f.push(0xB0 | channel);
            f.push(cc_num);
            f.push(cc_value);
            proof {
                assert(f@ =~= cc_message_spec(channel, *param, value as int).unwrap());
            }
            Some(f)
        },
        None => None,
    }
}

/// Every sound parameter's range holds at least two values.
pub proof fn lemma_sound_range_nonempty(p: SoundParameter)
    ensures
        p.spec_min() < p.spec_max(),
{
}

/// A value inside `[lo, hi]` rescales onto the CC range `0..=127`.
pub proof fn lemma_rescale_to_cc_bounds(v: int, lo: int, hi: int)
    requires
        lo < hi,
        lo <= v <= hi,
    ensures
        0 <= rescale_to_cc(v, lo, hi) <= 127,
{
    let d = v - lo;
    let r = hi - lo;
    lemma_div_pos_is_pos(d * 127, r);
    lemma_mul_inequality(d, r, 127);
    lemma_div_is_ordered(d * 127, r * 127, r);
    lemma_mul_is_commutative(r, 127);
    lemma_div_multiples_vanish(127, r);
}

/// A CC value rescales back into the parameter range `[lo, hi]`.
pub proof fn lemma_rescale_from_cc_bounds(c: int, lo: int, hi: int)
    requires
        lo < hi,
        0 <= c <= 127,
    ensures
        lo <= rescale_from_cc(c, lo, hi) <= hi,
{
    let r = hi - lo;
    lemma_div_pos_is_pos(c * r, 127);
    lemma_mul_inequality(c, 127, r);
    lemma_mul_is_commutative(c, r);
    lemma_mul_is_commutative(127, r);
    lemma_div_is_ordered(c * r, 127 * r, 127);
    lemma_div_multiples_vanish(r, 127);
}

/// The two direction tables agree: a parameter carries controller number `n`
/// exactly when `n` is assigned to that parameter.
pub proof fn lemma_cc_mapping_reversible(p: SoundParameter, n: u8)
    ensures
        cc_number(p) == Some(n) <==> cc_param(n) == Some(p),
{
}

/// Rescaling a value of a parameter whose range spans at most the CC range
/// into CC space and back loses at most one step: the round trip lands on
/// the original value or one below it.  Wider ranges lose more, because two
/// neighbouring values can fall onto the same CC step.
pub proof fn lemma_cc_roundtrip_close(p: SoundParameter, v: int)
    requires
        cc_number(p) is Some,
        p.in_range(v),
        p.spec_max() - p.spec_min() <= 127,
    ensures
        v - 1 <= rescale_from_cc(
            rescale_to_cc(v, p.spec_min(), p.spec_max()),
            p.spec_min(),
            p.spec_max(),
        ) <= v,
{
    let lo = p.spec_min();
    let hi = p.spec_max();
    let r = hi - lo;
    let d = v - lo;
    lemma_sound_range_nonempty(p);
    let w = (d * 127) / r;
    lemma_div_pos_is_pos(d * 127, r);
    lemma_fundamental_div_mod(d * 127, r);
    lemma_mod_division_less_than_divisor(d * 127, r);
    let rem = (d * 127) % r;
    assert(r * w == d * 127 - rem);
    lemma_mul_is_commutative(r, w);
    // upper bound: w * r <= d * 127, so (w * r) / 127 <= d
    lemma_div_is_ordered(w * r, d * 127, 127);
    lemma_mul_is_commutative(d, 127);
    lemma_div_multiples_vanish(d, 127);
    // lower bound: w * r >= d * 127 - (r - 1) >= (d - 1) * 127
    assert(w * r >= (d - 1) * 127) by {
        assert(rem <= r - 1);
        assert(r <= 127);
    }
    lemma_div_is_ordered((d - 1) * 127, w * r, 127);
    lemma_mul_is_commutative(d - 1, 127);
    lemma_div_multiples_vanish(d - 1, 127);
}

} // verus!
