//! The SysEx codec: message framing and the 7-bit-clean bit-packing used by
//! the bulk dump payloads.
//!
//! Every frame is `[0xF0, service, target, ...payload..., 0xF7]`.  Bulk dumps
//! carry pairs of little-endian signed 16-bit values, packed so that each
//! group of four payload bytes is followed by a "tops" byte holding their
//! high bits; the transmitted bytes therefore all stay below `0x80`.

use vstd::prelude::*;

verus! {

use crate::params::GetValue;
use crate::params::MultiParameter;
use crate::params::MultiParameterValues;
use crate::params::SoundParameter;
use crate::params::SoundParameterValues;
use vstd::arithmetic::div_mod::lemma_div_basics_2;
use vstd::arithmetic::div_mod::lemma_div_multiples_vanish;
use vstd::arithmetic::div_mod::lemma_fundamental_div_mod;
use vstd::arithmetic::div_mod::lemma_fundamental_div_mod_converse;
use vstd::arithmetic::div_mod::lemma_div_is_ordered;
use vstd::arithmetic::div_mod::lemma_div_pos_is_pos;
use vstd::arithmetic::div_mod::lemma_mod_division_less_than_divisor;
use vstd::arithmetic::div_mod::lemma_mod_multiples_vanish;
use vstd::arithmetic::mul::lemma_mul_is_commutative;

/// Service id of a multi request frame.
pub const SERVICE_MULTI_REQUEST: u8 = 0x01;

/// Service id of a preset request frame.
pub const SERVICE_PRESET_REQUEST: u8 = 0x02;

/// Service id of a preset parameter request frame.
pub const SERVICE_PRESET_PARAMETER_REQUEST: u8 = 0x03;

/// Service id of a multi dump frame.
pub const SERVICE_MULTI_DUMP: u8 = 0x11;

/// Service id of a preset dump frame.
pub const SERVICE_PRESET_DUMP: u8 = 0x12;

/// Service id of a single preset parameter dump frame.
pub const SERVICE_PRESET_PARAMETER_DUMP: u8 = 0x13;

/// Total length in bytes of a multi dump, including both boundary bytes.
pub const MULTI_DUMP_LENGTH: usize = 104;

/// Total length in bytes of a preset dump, including both boundary bytes.
pub const PRESET_DUMP_LENGTH: usize = 264;

/// Total length in bytes of a preset parameter dump.
pub const PRESET_PARAMETER_DUMP_LENGTH: usize = 8;

/// The signed 16-bit value stored little-endian as the bytes `lo`, `hi`.
pub open spec fn to_signed16(lo: u8, hi: u8) -> int {
    if hi >= 0x80 {
        lo + 256 * hi - 0x10000
    } else {
        lo + 256 * hi
    }
}

/// The 16-bit wire value starting at byte offset `off` of an unpacked payload.
pub open spec fn wire_at(values: Seq<u8>, off: int) -> int
    recommends
        0 <= off,
        off + 2 <= values.len(),
{
    to_signed16(values[off], values[off + 1])
}

/// Quotient of `a / b` rounded towards zero, as the hardware-facing tables
/// compute it; it differs from the Euclidean `/` on negative dividends.
pub open spec fn div_trunc(a: int, b: int) -> int
    recommends
        b > 0,
{
    if a >= 0 {
        a / b
    } else {
        -((-a) / b)
    }
}

/// One reconstructed payload byte: byte `j` of a group takes its low seven
/// bits from the transmitted byte and bit 7 from bit `j` of the tops byte.
pub open spec fn unpack_byte(data: u8, tops: u8, j: int) -> u8
    recommends
        0 <= j < 4,
{
    data | ((tops << ((7 - j) as u8)) & 0x80)
}

/// The unpacked form of a 7-bit-clean payload: four reconstructed bytes for
/// every full group of five transmitted bytes; a trailing partial group is
/// ignored.
pub open spec fn unpack_spec(data: Seq<u8>) -> Seq<u8> {
    Seq::new(
        (4 * (data.len() as int / 5)) as nat,
        |k: int| unpack_byte(data[5 * (k / 4) + (k % 4)], data[5 * (k / 4) + 4], k % 4),
    )
}

/// The tops byte of a group of four raw bytes: bit `j` holds bit 7 of byte `j`.
pub open spec fn tops_of(data: Seq<u8>, base: int) -> u8
    recommends
        0 <= base,
        base + 4 <= data.len(),
{
    ((data[base] >> 7) & 1) | (((data[base + 1] >> 7) & 1) << 1) | (((data[base + 2] >> 7) & 1)
        << 2) | (((data[base + 3] >> 7) & 1) << 3)
}

/// The packed, 7-bit-clean form of a raw byte sequence: every full group of
/// four bytes becomes its four low-bit parts followed by their tops byte; a
/// trailing partial group is ignored.
pub open spec fn pack_spec(data: Seq<u8>) -> Seq<u8> {
    Seq::new(
        (5 * (data.len() as int / 4)) as nat,
        |k: int|
            if k % 5 < 4 {
                data[4 * (k / 5) + (k % 5)] & 0x7F
            } else {
                tops_of(data, 4 * (k / 5))
            },
    )
}

/// Unpack the data and return a vector of it.
///
/// - `data`    Slice of 7-bit sysex payload
pub fn unpack_data(data: &[u8]) -> (r: Vec<u8>)
    ensures
        r@ == unpack_spec(data@),
{
    let mut result: Vec<u8> = Vec::new();
    let blocks: usize = data.len() / 5;
    let mut b: usize = 0;
    while b < blocks
        invariant
            blocks == data@.len() as int / 5,
            b <= blocks,
            5 * blocks <= data@.len(),
            data@.len() <= usize::MAX,
            result@.len() == 4 * b,
            forall|k: int|
                0 <= k < result@.len() ==> result@[k] == unpack_byte(
                    data@[5 * (k / 4) + (k % 4)],
                    data@[5 * (k / 4) + 4],
                    k % 4,
                ),
        decreases blocks - b,
    {
        let cursor: usize = 5 * b;
        let tops: u8 = data[cursor + 4];
        result.push(data[cursor] | ((tops << 7u8) & 0x80));
        result.push(data[cursor + 1] | ((tops << 6u8) & 0x80));
        result.push(data[cursor + 2] | ((tops << 5u8) & 0x80));
        result.push(data[cursor + 3] | ((tops << 4u8) & 0x80));
        proof {
            assert forall|k: int| 0 <= k < result@.len() implies result@[k] == unpack_byte(
                data@[5 * (k / 4) + (k % 4)],
                data@[5 * (k / 4) + 4],
                k % 4,
            ) by {
                if k >= 4 * b {
                    lemma_fundamental_div_mod_converse(k, 4, b as int, k - 4 * b);
                }
            }
        }
        b = b + 1;
    }
    proof {
        assert(result@ =~= unpack_spec(data@));
    }
    result
}

/// Pack raw bytes into the 7-bit-clean transmission form; the inverse of
/// [`unpack_data`] on buffers whose length is a multiple of four.
pub fn pack_data(data: &[u8]) -> (r: Vec<u8>)
    ensures
        r@ == pack_spec(data@),
{
    let mut result: Vec<u8> = Vec::new();
    let blocks: usize = data.len() / 4;
    let mut b: usize = 0;
    while b < blocks
        invariant
            blocks == data@.len() as int / 4,
            b <= blocks,
            4 * blocks <= data@.len(),
            data@.len() <= usize::MAX,
            result@.len() == 5 * b,
            forall|k: int|
                0 <= k < result@.len() ==> result@[k] == (if k % 5 < 4 {
                    data@[4 * (k / 5) + (k % 5)] & 0x7F
                } else {
                    tops_of(data@, 4 * (k / 5))
                }),
        decreases blocks - b,
    {
        let cursor: usize = 4 * b;
        result.push(data[cursor] & 0x7F);
        result.push(data[cursor + 1] & 0x7F);
        result.push(data[cursor + 2] & 0x7F);
        result.push(data[cursor + 3] & 0x7F);
        let tops: u8 = ((data[cursor] >> 7u8) & 1) | (((data[cursor + 1] >> 7u8) & 1) << 1u8) | ((
        (data[cursor + 2] >> 7u8) & 1) << 2u8) | (((data[cursor + 3] >> 7u8) & 1) << 3u8);
        result.push(tops);
        proof {
            assert forall|k: int| 0 <= k < result@.len() implies result@[k] == (if k % 5 < 4 {
                data@[4 * (k / 5) + (k % 5)] & 0x7F
            } else {
                tops_of(data@, 4 * (k / 5))
            }) by {
                if k >= 5 * b {
                    lemma_fundamental_div_mod_converse(k, 5, b as int, k - 5 * b);
                }
            }
        }
        b = b + 1;
    }
    proof {
        assert(result@ =~= pack_spec(data@));
    }
    result
}

/// Packing undoes unpacking: any buffer whose length is a multiple of five,
/// whose bytes are 7-bit clean and whose tops bytes use only their low four
/// bits is reproduced exactly by `pack_spec(unpack_spec(buf))`.
pub proof fn lemma_unpack_then_pack(buf: Seq<u8>)
    requires
        buf.len() % 5 == 0,
        forall|i: int| 0 <= i < buf.len() ==> buf[i] < 0x80,
        forall|i: int| 0 <= i < buf.len() && i % 5 == 4 ==> buf[i] < 0x10,
    ensures
        pack_spec(unpack_spec(buf)) =~= buf,
{
    let u = unpack_spec(buf);
    assert(buf.len() as int == 5 * (buf.len() as int / 5)) by {
        lemma_fundamental_div_mod(buf.len() as int, 5);
    }
    assert(u.len() as int / 4 == buf.len() as int / 5) by {
        lemma_fundamental_div_mod_converse(u.len() as int, 4, buf.len() as int / 5, 0);
    }
    assert forall|k: int| 0 <= k < buf.len() implies pack_spec(u)[k] == buf[k] by {
        let blk = k / 5;
        let j = k % 5;
        lemma_fundamental_div_mod(k, 5);
        if j < 4 {
            let kk = 4 * blk + j;
            lemma_fundamental_div_mod_converse(kk, 4, blk, j);
            let a = buf[k];
            let t = buf[5 * blk + 4];
            let s = (7 - j) as u8;
            assert(u[kk] == (a | ((t << s) & 0x80)));
            assert((a | ((t << s) & 0x80)) & 0x7F == a) by (bit_vector)
                requires
                    a < 0x80,
                    4 <= s <= 7,
            ;
        } else {
            let a0 = buf[5 * blk];
            let a1 = buf[5 * blk + 1];
            let a2 = buf[5 * blk + 2];
            let a3 = buf[5 * blk + 3];
            let t = buf[k];
            lemma_fundamental_div_mod_converse(4 * blk, 4, blk, 0);
            lemma_fundamental_div_mod_converse(4 * blk + 1, 4, blk, 1);
            lemma_fundamental_div_mod_converse(4 * blk + 2, 4, blk, 2);
            lemma_fundamental_div_mod_converse(4 * blk + 3, 4, blk, 3);
            assert(u[4 * blk] == (a0 | ((t << 7u8) & 0x80)));
            assert(u[4 * blk + 1] == (a1 | ((t << 6u8) & 0x80)));
            assert(u[4 * blk + 2] == (a2 | ((t << 5u8) & 0x80)));
            assert(u[4 * blk + 3] == (a3 | ((t << 4u8) & 0x80)));
            assert((((a0 | ((t << 7u8) & 0x80)) >> 7) & 1) | ((((a1 | ((t << 6u8) & 0x80)) >> 7)
                & 1) << 1) | ((((a2 | ((t << 5u8) & 0x80)) >> 7) & 1) << 2) | ((((a3 | ((t << 4u8)
                & 0x80)) >> 7) & 1) << 3) == t) by (bit_vector)
                requires
                    t < 0x10,
                    a0 < 0x80,
                    a1 < 0x80,
                    a2 < 0x80,
                    a3 < 0x80,
            ;
        }
    }
}

/// Unpacking undoes packing: any buffer whose length is a multiple of four is
/// reproduced exactly by `unpack_spec(pack_spec(buf))`, with no restriction
/// on its byte values.
pub proof fn lemma_pack_then_unpack(buf: Seq<u8>)
    requires
        buf.len() % 4 == 0,
    ensures
        unpack_spec(pack_spec(buf)) =~= buf,
{
    let p = pack_spec(buf);
    assert(buf.len() as int == 4 * (buf.len() as int / 4)) by {
        lemma_fundamental_div_mod(buf.len() as int, 4);
    }
    assert(p.len() as int / 5 == buf.len() as int / 4) by {
        lemma_fundamental_div_mod_converse(p.len() as int, 5, buf.len() as int / 4, 0);
    }
    assert forall|k: int| 0 <= k < buf.len() implies unpack_spec(p)[k] == buf[k] by {
        let blk = k / 4;
        let j = k % 4;
        lemma_fundamental_div_mod(k, 4);
        let kk = 5 * blk + j;
        lemma_fundamental_div_mod_converse(kk, 5, blk, j);
        lemma_fundamental_div_mod_converse(5 * blk + 4, 5, blk, 4);
        assert(p[kk] == buf[k] & 0x7F);
        assert(p[5 * blk + 4] == tops_of(buf, 4 * blk));
        let a0 = buf[4 * blk];
        let a1 = buf[4 * blk + 1];
        let a2 = buf[4 * blk + 2];
        let a3 = buf[4 * blk + 3];
        let t = tops_of(buf, 4 * blk);
        if j == 0 {
            assert((a0 & 0x7F) | (((((a0 >> 7) & 1) | (((a1 >> 7) & 1) << 1) | (((a2 >> 7) & 1)
                << 2) | (((a3 >> 7) & 1) << 3)) << 7u8) & 0x80) == a0) by (bit_vector);
        } else if j == 1 {
            assert((a1 & 0x7F) | (((((a0 >> 7) & 1) | (((a1 >> 7) & 1) << 1) | (((a2 >> 7) & 1)
                << 2) | (((a3 >> 7) & 1) << 3)) << 6u8) & 0x80) == a1) by (bit_vector);
        } else if j == 2 {
            assert((a2 & 0x7F) | (((((a0 >> 7) & 1) | (((a1 >> 7) & 1) << 1) | (((a2 >> 7) & 1)
                << 2) | (((a3 >> 7) & 1) << 3)) << 5u8) & 0x80) == a2) by (bit_vector);
        } else {
            assert((a3 & 0x7F) | (((((a0 >> 7) & 1) | (((a1 >> 7) & 1) << 1) | (((a2 >> 7) & 1)
                << 2) | (((a3 >> 7) & 1) << 3)) << 4u8) & 0x80) == a3) by (bit_vector);
        }
    }
}


/// Wire index of a sound parameter: its 16-bit slot number inside the
/// unpacked preset dump payload.
pub open spec fn wire_id(p: SoundParameter) -> int {
    match p {
        SoundParameter::Osc1Wave => 0,
        SoundParameter::Osc1Coarse => 1,
        SoundParameter::Osc1FMAmount => 2,
        SoundParameter::Osc1Level => 3,
        SoundParameter::Osc1Table => 4,
        SoundParameter::Osc1Fine => 5,
        SoundParameter::Osc1FMRate => 6,
        SoundParameter::Osc1Sync => 7,
        SoundParameter::Osc2Wave => 8,
        SoundParameter::Osc2FMAmount => 10,
        SoundParameter::Osc2Level => 11,
        SoundParameter::Osc2Coarse => 9,
        SoundParameter::Osc2Table => 12,
        SoundParameter::Osc2Fine => 13,
        SoundParameter::Osc2FMRate => 14,
        SoundParameter::Osc2Sync => 15,
        SoundParameter::ExtraNoise => 16,
        SoundParameter::ExtraRingMod => 17,
        SoundParameter::FilterCutoff => 24,
        SoundParameter::FilterResonance => 25,
        SoundParameter::FilterEnvFAmount => 26,
        SoundParameter::FilterTrack => 27,
        SoundParameter::FilterAfter => 28,
        SoundParameter::FilterLFO1Amount => 29,
        SoundParameter::ShaperCutoff => 18,
        SoundParameter::ShaperResonance => 19,
        SoundParameter::ShaperEnvAAmount => 20,
        SoundParameter::ShaperTrack => 21,
        SoundParameter::ShaperMode => 22,
        SoundParameter::ShaperLFO2Amount => 23,
        SoundParameter::EnvFAttack => 30,
        SoundParameter::EnvFDecay => 31,
        SoundParameter::EnvFSustain => 32,
        SoundParameter::EnvFRelease => 33,
        SoundParameter::EnvFVelo => 34,
        SoundParameter::EnvFHold => 35,
        SoundParameter::EnvFAfter => 36,
        SoundParameter::EnvFTrigger => 37,
        SoundParameter::EnvAAttack => 38,
        SoundParameter::EnvADecay => 39,
        SoundParameter::EnvASustain => 40,
        SoundParameter::EnvARelease => 41,
        SoundParameter::EnvAVelo => 42,
        SoundParameter::EnvAHold => 43,
        SoundParameter::EnvAAfter => 44,
        SoundParameter::EnvATrigger => 45,
        SoundParameter::LFO1Shape => 46,
        SoundParameter::LFO1Speed => 47,
        SoundParameter::LFO1Rise => 48,
        SoundParameter::LFO1Phase => 49,
        SoundParameter::LFO2Shape => 50,
        SoundParameter::LFO2Speed => 51,
        SoundParameter::LFO2Rise => 52,
        SoundParameter::LFO2Phase => 53,
        SoundParameter::ArpMode => 54,
        SoundParameter::ArpGrid => 55,
        SoundParameter::ArpTempo => 56,
        SoundParameter::ArpHold => 57,
        SoundParameter::AmpLevel => 58,
        SoundParameter::AmpPan => 59,
        SoundParameter::ModEnvFAmount => 60,
        SoundParameter::ModEnvFTarget => 61,
        SoundParameter::ModEnvAAmount => 62,
        SoundParameter::ModEnvATarget => 63,
        SoundParameter::ModLFO1Amount => 64,
        SoundParameter::ModLFO1Target => 65,
        SoundParameter::ModLFO2Amount => 66,
        SoundParameter::ModLFO2Target => 67,
        SoundParameter::ModModwheelAmount => 68,
        SoundParameter::ModModwheelTarget => 69,
        SoundParameter::ModPitchAmount => 70,
        SoundParameter::ModPitchTarget => 71,
        SoundParameter::ModVelocityAmount => 72,
        SoundParameter::ModVelocityTarget => 73,
        SoundParameter::ModAftertouchAmount => 74,
        SoundParameter::ModAftertouchTarget => 75,
        SoundParameter::BendRange => 86,
        SoundParameter::Tune => 84,
        SoundParameter::PolyMode => 87,
    }
}

/// Scale factor between a table value and its wire value; `ArpTempo` uses
/// a linear rescale of its own instead.
pub open spec fn wire_scale(p: SoundParameter) -> int {
    match p {
        SoundParameter::Osc1Wave
            | SoundParameter::Osc1FMAmount
            | SoundParameter::Osc1Level
            | SoundParameter::Osc1FMRate
            | SoundParameter::Osc1Sync
            | SoundParameter::Osc2Wave
            | SoundParameter::Osc2FMAmount
            | SoundParameter::Osc2Level
            | SoundParameter::Osc2FMRate
            | SoundParameter::Osc2Sync
            | SoundParameter::ExtraNoise
            | SoundParameter::ExtraRingMod
            | SoundParameter::FilterCutoff
            | SoundParameter::FilterResonance
            | SoundParameter::FilterEnvFAmount
            | SoundParameter::FilterAfter
            | SoundParameter::FilterLFO1Amount
            | SoundParameter::ShaperCutoff
            | SoundParameter::ShaperResonance
            | SoundParameter::ShaperEnvAAmount
            | SoundParameter::ShaperLFO2Amount
            | SoundParameter::EnvFAttack
            | SoundParameter::EnvFDecay
            | SoundParameter::EnvFSustain
            | SoundParameter::EnvFRelease
            | SoundParameter::EnvFVelo
            | SoundParameter::EnvFHold
            | SoundParameter::EnvFAfter
            | SoundParameter::EnvAAttack
            | SoundParameter::EnvADecay
            | SoundParameter::EnvASustain
            | SoundParameter::EnvARelease
            | SoundParameter::EnvAVelo
            | SoundParameter::EnvAHold
            | SoundParameter::EnvAAfter
            | SoundParameter::LFO1Speed
            | SoundParameter::LFO1Rise
            | SoundParameter::LFO2Speed
            | SoundParameter::LFO2Rise
            | SoundParameter::AmpLevel
            | SoundParameter::AmpPan
            | SoundParameter::ModEnvFAmount
            | SoundParameter::ModEnvAAmount
            | SoundParameter::ModLFO1Amount
            | SoundParameter::ModLFO2Amount
            | SoundParameter::ModModwheelAmount
            | SoundParameter::ModPitchAmount
            | SoundParameter::ModVelocityAmount
            | SoundParameter::ModAftertouchAmount => 4,
        SoundParameter::Osc1Coarse
            | SoundParameter::Osc1Table
            | SoundParameter::Osc1Fine
            | SoundParameter::Osc2Coarse
            | SoundParameter::Osc2Table
            | SoundParameter::Osc2Fine
            | SoundParameter::FilterTrack
            | SoundParameter::ShaperTrack
            | SoundParameter::ShaperMode
            | SoundParameter::EnvFTrigger
            | SoundParameter::EnvATrigger
            | SoundParameter::LFO1Shape
            | SoundParameter::LFO1Phase
            | SoundParameter::LFO2Shape
            | SoundParameter::LFO2Phase
            | SoundParameter::ArpMode
            | SoundParameter::ArpGrid
            | SoundParameter::ArpHold
            | SoundParameter::ModEnvFTarget
            | SoundParameter::ModEnvATarget
            | SoundParameter::ModLFO1Target
            | SoundParameter::ModLFO2Target
            | SoundParameter::ModModwheelTarget
            | SoundParameter::ModPitchTarget
            | SoundParameter::ModVelocityTarget
            | SoundParameter::ModAftertouchTarget
            | SoundParameter::BendRange
            | SoundParameter::Tune
            | SoundParameter::PolyMode
            | SoundParameter::ArpTempo => 1,
    }
}

/// Byte offset of a sound parameter inside the unpacked preset dump payload.
pub open spec fn sound_offset(p: SoundParameter) -> int {
    2 * wire_id(p)
}

/// The wire value that carries the table value `v` of parameter `p`.
pub open spec fn encode_scaled(p: SoundParameter, v: int) -> int {
    if p == SoundParameter::ArpTempo {
        div_trunc((v - 20) * 1024, 179)
    } else {
        v * wire_scale(p)
    }
}

/// The table value recovered from the wire value `w` of parameter `p`.
pub open spec fn decode_scaled(p: SoundParameter, w: int) -> int {
    if p == SoundParameter::ArpTempo {
        div_trunc(w * 179, 1024) + 20
    } else {
        div_trunc(w, wire_scale(p))
    }
}

/// The value a preset dump with unpacked payload `values` assigns to `p`.
pub open spec fn sound_dump_value(values: Seq<u8>, p: SoundParameter) -> int {
    decode_scaled(p, wire_at(values, sound_offset(p)))
}

/// Byte offset of a multi parameter inside the unpacked multi dump payload.
pub open spec fn multi_offset(p: MultiParameter) -> int {
    match p {
        MultiParameter::PresetPart1 => 0,
        MultiParameter::PresetPart2 => 2,
        MultiParameter::PresetPart3 => 4,
        MultiParameter::PresetPart4 => 6,
        MultiParameter::ChannelPart1 => 8,
        MultiParameter::ChannelPart2 => 10,
        MultiParameter::ChannelPart3 => 12,
        MultiParameter::ChannelPart4 => 14,
        MultiParameter::VolumePart1 => 16,
        MultiParameter::VolumePart2 => 18,
        MultiParameter::VolumePart3 => 20,
        MultiParameter::VolumePart4 => 22,
        MultiParameter::BalancePart1 => 24,
        MultiParameter::BalancePart2 => 26,
        MultiParameter::BalancePart3 => 28,
        MultiParameter::BalancePart4 => 30,
        MultiParameter::FXLength => 32,
        MultiParameter::FXFeedback => 34,
        MultiParameter::FXMix => 36,
        MultiParameter::FXMode => 38,
        MultiParameter::FXSpeed => 40,
        MultiParameter::FXDepth => 40,
    }
}

/// Scale factor between a multi table value and its wire value.
pub open spec fn multi_scale(p: MultiParameter) -> int {
    match p {
        MultiParameter::VolumePart1
            | MultiParameter::VolumePart2
            | MultiParameter::VolumePart3
            | MultiParameter::VolumePart4
            | MultiParameter::BalancePart1
            | MultiParameter::BalancePart2
            | MultiParameter::BalancePart3
            | MultiParameter::BalancePart4
            | MultiParameter::FXLength
            | MultiParameter::FXFeedback
            | MultiParameter::FXMix
            | MultiParameter::FXSpeed
            | MultiParameter::FXDepth => 4,
        MultiParameter::PresetPart1
            | MultiParameter::PresetPart2
            | MultiParameter::PresetPart3
            | MultiParameter::PresetPart4
            | MultiParameter::ChannelPart1
            | MultiParameter::ChannelPart2
            | MultiParameter::ChannelPart3
            | MultiParameter::ChannelPart4
            | MultiParameter::FXMode => 1,
    }
}

/// The value a multi dump with unpacked payload `values` assigns to `p`.
pub open spec fn multi_dump_value(values: Seq<u8>, p: MultiParameter) -> int {
    div_trunc(wire_at(values, multi_offset(p)), multi_scale(p))
}

/// Low seven bits of a wire value, as transmitted.
pub open spec fn low7(w: int) -> u8 {
    (w % 128) as u8
}

/// Next seven bits of a wire value, as transmitted.
pub open spec fn high7(w: int) -> u8 {
    ((w / 128) % 128) as u8
}

/// The eight bytes of a single preset parameter dump frame.
pub open spec fn preset_param_frame(preset_id: u8, p: SoundParameter, v: int) -> Seq<u8> {
    seq![
        0xF0u8,
        SERVICE_PRESET_PARAMETER_DUMP,
        preset_id,
        low7(wire_id(p)),
        high7(wire_id(p)),
        low7(encode_scaled(p, v)),
        high7(encode_scaled(p, v)),
        0xF7u8,
    ]
}

/// Wire index of the parameter, for building frames.
fn wire_index(param: &SoundParameter) -> (i: u16)
    ensures
        i as int == wire_id(*param),
{
    match param {
        SoundParameter::Osc1Wave => 0,
        SoundParameter::Osc1Coarse => 1,
        SoundParameter::Osc1FMAmount => 2,
        SoundParameter::Osc1Level => 3,
        SoundParameter::Osc1Table => 4,
        SoundParameter::Osc1Fine => 5,
        SoundParameter::Osc1FMRate => 6,
        SoundParameter::Osc1Sync => 7,
        SoundParameter::Osc2Wave => 8,
        SoundParameter::Osc2FMAmount => 10,
        SoundParameter::Osc2Level => 11,
        SoundParameter::Osc2Coarse => 9,
        SoundParameter::Osc2Table => 12,
        SoundParameter::Osc2Fine => 13,
        SoundParameter::Osc2FMRate => 14,
        SoundParameter::Osc2Sync => 15,
        SoundParameter::ExtraNoise => 16,
        SoundParameter::ExtraRingMod => 17,
        SoundParameter::FilterCutoff => 24,
        SoundParameter::FilterResonance => 25,
        SoundParameter::FilterEnvFAmount => 26,
        SoundParameter::FilterTrack => 27,
        SoundParameter::FilterAfter => 28,
        SoundParameter::FilterLFO1Amount => 29,
        SoundParameter::ShaperCutoff => 18,
        SoundParameter::ShaperResonance => 19,
        SoundParameter::ShaperEnvAAmount => 20,
        SoundParameter::ShaperTrack => 21,
        SoundParameter::ShaperMode => 22,
        SoundParameter::ShaperLFO2Amount => 23,
        SoundParameter::EnvFAttack => 30,
        SoundParameter::EnvFDecay => 31,
        SoundParameter::EnvFSustain => 32,
        SoundParameter::EnvFRelease => 33,
        SoundParameter::EnvFVelo => 34,
        SoundParameter::EnvFHold => 35,
        SoundParameter::EnvFAfter => 36,
        SoundParameter::EnvFTrigger => 37,
        SoundParameter::EnvAAttack => 38,
        SoundParameter::EnvADecay => 39,
        SoundParameter::EnvASustain => 40,
        SoundParameter::EnvARelease => 41,
        SoundParameter::EnvAVelo => 42,
        SoundParameter::EnvAHold => 43,
        SoundParameter::EnvAAfter => 44,
        SoundParameter::EnvATrigger => 45,
        SoundParameter::LFO1Shape => 46,
        SoundParameter::LFO1Speed => 47,
        SoundParameter::LFO1Rise => 48,
        SoundParameter::LFO1Phase => 49,
        SoundParameter::LFO2Shape => 50,
        SoundParameter::LFO2Speed => 51,
        SoundParameter::LFO2Rise => 52,
        SoundParameter::LFO2Phase => 53,
        SoundParameter::ArpMode => 54,
        SoundParameter::ArpGrid => 55,
        SoundParameter::ArpTempo => 56,
        SoundParameter::ArpHold => 57,
        SoundParameter::AmpLevel => 58,
        SoundParameter::AmpPan => 59,
        SoundParameter::ModEnvFAmount => 60,
        SoundParameter::ModEnvFTarget => 61,
        SoundParameter::ModEnvAAmount => 62,
        SoundParameter::ModEnvATarget => 63,
        SoundParameter::ModLFO1Amount => 64,
        SoundParameter::ModLFO1Target => 65,
        SoundParameter::ModLFO2Amount => 66,
        SoundParameter::ModLFO2Target => 67,
        SoundParameter::ModModwheelAmount => 68,
        SoundParameter::ModModwheelTarget => 69,
        SoundParameter::ModPitchAmount => 70,
        SoundParameter::ModPitchTarget => 71,
        SoundParameter::ModVelocityAmount => 72,
        SoundParameter::ModVelocityTarget => 73,
        SoundParameter::ModAftertouchAmount => 74,
        SoundParameter::ModAftertouchTarget => 75,
        SoundParameter::BendRange => 86,
        SoundParameter::Tune => 84,
        SoundParameter::PolyMode => 87,
    }
}

/// Scale the table value `value` of `param` into its wire value.
fn encode_value(param: &SoundParameter, value: i32) -> (w: i32)
    requires
        param.in_range(value as int),
    ensures
        w as int == encode_scaled(*param, value as int),
        -0x8000 <= w <= 0x7FFF,
{
    match param {
        SoundParameter::Osc1Wave
            | SoundParameter::Osc1FMAmount
            | SoundParameter::Osc1Level
            | SoundParameter::Osc1FMRate
            | SoundParameter::Osc1Sync
            | SoundParameter::Osc2Wave
            | SoundParameter::Osc2FMAmount
            | SoundParameter::Osc2Level
            | SoundParameter::Osc2FMRate
            | SoundParameter::Osc2Sync
            | SoundParameter::ExtraNoise
            | SoundParameter::ExtraRingMod
            | SoundParameter::FilterCutoff
            | SoundParameter::FilterResonance
            | SoundParameter::FilterEnvFAmount
            | SoundParameter::FilterAfter
            | SoundParameter::FilterLFO1Amount
            | SoundParameter::ShaperCutoff
            | SoundParameter::ShaperResonance
            | SoundParameter::ShaperEnvAAmount
            | SoundParameter::ShaperLFO2Amount
            | SoundParameter::EnvFAttack
            | SoundParameter::EnvFDecay
            | SoundParameter::EnvFSustain
            | SoundParameter::EnvFRelease
            | SoundParameter::EnvFVelo
            | SoundParameter::EnvFHold
            | SoundParameter::EnvFAfter
            | SoundParameter::EnvAAttack
            | SoundParameter::EnvADecay
            | SoundParameter::EnvASustain
            | SoundParameter::EnvARelease
            | SoundParameter::EnvAVelo
            | SoundParameter::EnvAHold
            | SoundParameter::EnvAAfter
            | SoundParameter::LFO1Speed
            | SoundParameter::LFO1Rise
            | SoundParameter::LFO2Speed
            | SoundParameter::LFO2Rise
            | SoundParameter::AmpLevel
            | SoundParameter::AmpPan
            | SoundParameter::ModEnvFAmount
            | SoundParameter::ModEnvAAmount
            | SoundParameter::ModLFO1Amount
            | SoundParameter::ModLFO2Amount
            | SoundParameter::ModModwheelAmount
            | SoundParameter::ModPitchAmount
            | SoundParameter::ModVelocityAmount
            | SoundParameter::ModAftertouchAmount => value * 4,
        SoundParameter::ArpTempo => arp_to_wire(value),
        SoundParameter::Osc1Coarse
            | SoundParameter::Osc1Table
            | SoundParameter::Osc1Fine
            | SoundParameter::Osc2Coarse
            | SoundParameter::Osc2Table
            | SoundParameter::Osc2Fine
            | SoundParameter::FilterTrack
            | SoundParameter::ShaperTrack
            | SoundParameter::ShaperMode
            | SoundParameter::EnvFTrigger
            | SoundParameter::EnvATrigger
            | SoundParameter::LFO1Shape
            | SoundParameter::LFO1Phase
            | SoundParameter::LFO2Shape
            | SoundParameter::LFO2Phase
            | SoundParameter::ArpMode
            | SoundParameter::ArpGrid
            | SoundParameter::ArpHold
            | SoundParameter::ModEnvFTarget
            | SoundParameter::ModEnvATarget
            | SoundParameter::ModLFO1Target
            | SoundParameter::ModLFO2Target
            | SoundParameter::ModModwheelTarget
            | SoundParameter::ModPitchTarget
            | SoundParameter::ModVelocityTarget
            | SoundParameter::ModAftertouchTarget
            | SoundParameter::BendRange
            | SoundParameter::Tune
            | SoundParameter::PolyMode => value,
    }
}

/// Truncating rescale of an arpeggiator tempo into its 1024-step wire value.
fn arp_to_wire(value: i32) -> (w: i32)
    requires
        1 <= value <= 199,
    ensures
        w as int == div_trunc((value - 20) * 1024, 179),
        -0x8000 <= w <= 0x7FFF,
{
    if value >= 20 {
        let d: u32 = (((value - 20) as u32) * 1024) / 179;
        d as i32
    } else {
        let d: u32 = (((20 - value) as u32) * 1024) / 179;
        -(d as i32)
    }
}

/// Truncating rescale of a 1024-step wire value back into a tempo value.
fn wire_to_arp(w: i32) -> (r: i32)
    requires
        -0x8000 <= w <= 0x7FFF,
    ensures
        r as int == div_trunc(w as int * 179, 1024) + 20,
{
    if w >= 0 {
        let d: u32 = ((w as u32) * 179) / 1024;
        (d as i32) + 20
    } else {
        let d: u32 = (((-w) as u32) * 179) / 1024;
        -(d as i32) + 20
    }
}

/// Quotient of `v / 4` rounded towards zero, matching the wire scale tables.
fn div4_trunc(v: i32) -> (r: i32)
    requires
        -0x8000 <= v <= 0x7FFF,
    ensures
        r as int == div_trunc(v as int, 4),
{
    if v >= 0 {
        ((v as u32) / 4) as i32
    } else {
        let d: u32 = ((-v) as u32) / 4;
        -(d as i32)
    }
}

/// Return message for multi request.
///
/// - `multi_id`   Multi id, either 0..9 or 0x7F
pub fn multi_request(multi_id: u8) -> (r: Vec<u8>)
    requires
        multi_id <= 9 || multi_id == 0x7F,
    ensures
        r@ == seq![0xF0u8, SERVICE_MULTI_REQUEST, multi_id, 0xF7u8],
{
    let mut r: Vec<u8> = Vec::new();
    r.push(0xF0);
    r.push(SERVICE_MULTI_REQUEST);
    r.push(multi_id);
    r.push(0xF7);
    proof {
        assert(r@ =~= seq![0xF0u8, SERVICE_MULTI_REQUEST, multi_id, 0xF7u8]);
    }
    r
}

/// Return message for preset request.
///
/// - `preset_id`   Preset id, either 0..99 or 0x70..0x73
pub fn preset_request(preset_id: u8) -> (r: Vec<u8>)
    requires
        preset_id <= 99 || 0x70 <= preset_id <= 0x73,
    ensures
        r@ == seq![0xF0u8, SERVICE_PRESET_REQUEST, preset_id, 0xF7u8],
{
    let mut r: Vec<u8> = Vec::new();
    r.push(0xF0);
    r.push(SERVICE_PRESET_REQUEST);
    r.push(preset_id);
    r.push(0xF7);
    proof {
        assert(r@ =~= seq![0xF0u8, SERVICE_PRESET_REQUEST, preset_id, 0xF7u8]);
    }
    r
}

/// Return message for preset parameter dump.
///
/// - `preset_id`   Preset id 0x70..0x73
/// - `param`       Sound parameter enum value
/// - `value`       Sound parameter value
pub fn preset_param_dump(preset_id: u8, param: &SoundParameter, value: i32) -> (r: Vec<u8>)
    requires
        0x70 <= preset_id <= 0x73,
        param.in_range(value as int),
    ensures
        r@ == preset_param_frame(preset_id, *param, value as int),
{
    let id: u16 = wire_index(param);
    let w: i32 = encode_value(param, value);
    let uw: u16 = if w >= 0 {
        w as u16
    } else {
        (w + 0x10000) as u16
    };
    let id_low: u8 = (id % 128) as u8;
    let id_high: u8 = ((id / 128) % 128) as u8;
    let value_low: u8 = (uw % 128) as u8;
    let value_high: u8 = ((uw / 128) % 128) as u8;
    proof {
        if w < 0 {
            lemma_fundamental_div_mod(w as int, 128);
            lemma_fundamental_div_mod_converse(
                w + 0x10000,
                128,
                w as int / 128 + 512,
                (w as int) % 128,
            );
            lemma_mod_multiples_vanish(4, w as int / 128, 128);
        }
    }
    let mut r: Vec<u8> = Vec::new();
    r.push(0xF0);
    r.push(SERVICE_PRESET_PARAMETER_DUMP);
    r.push(preset_id);
    r.push(id_low);
    r.push(id_high);
    r.push(value_low);
    r.push(value_high);
    r.push(0xF7);
    proof {
        assert(r@ =~= preset_param_frame(preset_id, *param, value as int));
    }
    r
}

/// Return parameter value as i32 from values vector addressed by index.
///
/// - `index`   Start index in values vector
fn value_from_index(values: &Vec<u8>, index: usize) -> (r: i32)
    requires
        index + 2 <= values@.len(),
    ensures
        r as int == wire_at(values@, index as int),
        -0x8000 <= r <= 0x7FFF,
{
    proof {
        assert(index + 2 <= values.len());
    }
    let lo: u32 = values[index] as u32;
    let hi: u32 = values[index + 1] as u32;
    let v: u32 = lo + hi * 256;
    if v >= 0x8000 {
        (v as i32) - 0x10000
    } else {
        v as i32
    }
}

fn update_sound_osc1(params: &mut SoundParameterValues, values: &Vec<u8>)
    requires
        values@.len() >= 176,
    ensures
        forall|q: SoundParameter|
            0 <= q.ord() < 8 ==> final(params).spec_get_value(q) as int == sound_dump_value(
                values@,
                q,
            ),
        forall|q: SoundParameter|
            !(0 <= q.ord() < 8) ==> final(params).spec_get_value(q) == old(
                params,
            ).spec_get_value(q),
{
    params.insert(SoundParameter::Osc1Wave, div4_trunc(value_from_index(values, 0)));
    params.insert(SoundParameter::Osc1Coarse, value_from_index(values, 2));
    params.insert(SoundParameter::Osc1FMAmount, div4_trunc(value_from_index(values, 4)));
    params.insert(SoundParameter::Osc1Level, div4_trunc(value_from_index(values, 6)));
    params.insert(SoundParameter::Osc1Table, value_from_index(values, 8));
    params.insert(SoundParameter::Osc1Fine, value_from_index(values, 10));
    params.insert(SoundParameter::Osc1FMRate, div4_trunc(value_from_index(values, 12)));
    params.insert(SoundParameter::Osc1Sync, div4_trunc(value_from_index(values, 14)));
}

fn update_sound_osc2(params: &mut SoundParameterValues, values: &Vec<u8>)
    requires
        values@.len() >= 176,
    ensures
        forall|q: SoundParameter|
            8 <= q.ord() < 16 ==> final(params).spec_get_value(q) as int == sound_dump_value(
                values@,
                q,
            ),
        forall|q: SoundParameter|
            !(8 <= q.ord() < 16) ==> final(params).spec_get_value(q) == old(
                params,
            ).spec_get_value(q),
{
    params.insert(SoundParameter::Osc2Wave, div4_trunc(value_from_index(values, 16)));
    params.insert(SoundParameter::Osc2Coarse, value_from_index(values, 18));
    params.insert(SoundParameter::Osc2FMAmount, div4_trunc(value_from_index(values, 20)));
    params.insert(SoundParameter::Osc2Level, div4_trunc(value_from_index(values, 22)));
    params.insert(SoundParameter::Osc2Table, value_from_index(values, 24));
    params.insert(SoundParameter::Osc2Fine, value_from_index(values, 26));
    params.insert(SoundParameter::Osc2FMRate, div4_trunc(value_from_index(values, 28)));
    params.insert(SoundParameter::Osc2Sync, div4_trunc(value_from_index(values, 30)));
}

fn update_sound_extra(params: &mut SoundParameterValues, values: &Vec<u8>)
    requires
        values@.len() >= 176,
    ensures
        forall|q: SoundParameter|
            16 <= q.ord() < 18 ==> final(params).spec_get_value(q) as int == sound_dump_value(
                values@,
                q,
            ),
        forall|q: SoundParameter|
            !(16 <= q.ord() < 18) ==> final(params).spec_get_value(q) == old(
                params,
            ).spec_get_value(q),
{
    params.insert(SoundParameter::ExtraNoise, div4_trunc(value_from_index(values, 32)));
    params.insert(SoundParameter::ExtraRingMod, div4_trunc(value_from_index(values, 34)));
}

fn update_sound_shaper(params: &mut SoundParameterValues, values: &Vec<u8>)
    requires
        values@.len() >= 176,
    ensures
        forall|q: SoundParameter|
            24 <= q.ord() < 30 ==> final(params).spec_get_value(q) as int == sound_dump_value(
                values@,
                q,
            ),
        forall|q: SoundParameter|
            !(24 <= q.ord() < 30) ==> final(params).spec_get_value(q) == old(
                params,
            ).spec_get_value(q),
{
    params.insert(SoundParameter::ShaperCutoff, div4_trunc(value_from_index(values, 36)));
    params.insert(SoundParameter::ShaperResonance, div4_trunc(value_from_index(values, 38)));
    params.insert(SoundParameter::ShaperEnvAAmount, div4_trunc(value_from_index(values, 40)));
    params.insert(SoundParameter::ShaperTrack, value_from_index(values, 42));
    params.insert(SoundParameter::ShaperMode, value_from_index(values, 44));
    params.insert(SoundParameter::ShaperLFO2Amount, div4_trunc(value_from_index(values, 46)));
}

fn update_sound_filter(params: &mut SoundParameterValues, values: &Vec<u8>)
    requires
        values@.len() >= 176,
    ensures
        forall|q: SoundParameter|
            18 <= q.ord() < 24 ==> final(params).spec_get_value(q) as int == sound_dump_value(
                values@,
                q,
            ),
        forall|q: SoundParameter|
            !(18 <= q.ord() < 24) ==> final(params).spec_get_value(q) == old(
                params,
            ).spec_get_value(q),
{
    params.insert(SoundParameter::FilterCutoff, div4_trunc(value_from_index(values, 48)));
    params.insert(SoundParameter::FilterResonance, div4_trunc(value_from_index(values, 50)));
    params.insert(SoundParameter::FilterEnvFAmount, div4_trunc(value_from_index(values, 52)));
    params.insert(SoundParameter::FilterTrack, value_from_index(values, 54));
    params.insert(SoundParameter::FilterAfter, div4_trunc(value_from_index(values, 56)));
    params.insert(SoundParameter::FilterLFO1Amount, div4_trunc(value_from_index(values, 58)));
}

fn update_sound_env_f(params: &mut SoundParameterValues, values: &Vec<u8>)
    requires
        values@.len() >= 176,
    ensures
        forall|q: SoundParameter|
            30 <= q.ord() < 38 ==> final(params).spec_get_value(q) as int == sound_dump_value(
                values@,
                q,
            ),
        forall|q: SoundParameter|
            !(30 <= q.ord() < 38) ==> final(params).spec_get_value(q) == old(
                params,
            ).spec_get_value(q),
{
    params.insert(SoundParameter::EnvFAttack, div4_trunc(value_from_index(values, 60)));
    params.insert(SoundParameter::EnvFDecay, div4_trunc(value_from_index(values, 62)));
    params.insert(SoundParameter::EnvFSustain, div4_trunc(value_from_index(values, 64)));
    params.insert(SoundParameter::EnvFRelease, div4_trunc(value_from_index(values, 66)));
    params.insert(SoundParameter::EnvFVelo, div4_trunc(value_from_index(values, 68)));
    params.insert(SoundParameter::EnvFHold, div4_trunc(value_from_index(values, 70)));
    params.insert(SoundParameter::EnvFAfter, div4_trunc(value_from_index(values, 72)));
    params.insert(SoundParameter::EnvFTrigger, value_from_index(values, 74));
}

fn update_sound_env_a(params: &mut SoundParameterValues, values: &Vec<u8>)
    requires
        values@.len() >= 176,
    ensures
        forall|q: SoundParameter|
            38 <= q.ord() < 46 ==> final(params).spec_get_value(q) as int == sound_dump_value(
                values@,
                q,
            ),
        forall|q: SoundParameter|
            !(38 <= q.ord() < 46) ==> final(params).spec_get_value(q) == old(
                params,
            ).spec_get_value(q),
{
    params.insert(SoundParameter::EnvAAttack, div4_trunc(value_from_index(values, 76)));
    params.insert(SoundParameter::EnvADecay, div4_trunc(value_from_index(values, 78)));
    params.insert(SoundParameter::EnvASustain, div4_trunc(value_from_index(values, 80)));
    params.insert(SoundParameter::EnvARelease, div4_trunc(value_from_index(values, 82)));
    params.insert(SoundParameter::EnvAVelo, div4_trunc(value_from_index(values, 84)));
    params.insert(SoundParameter::EnvAHold, div4_trunc(value_from_index(values, 86)));
    params.insert(SoundParameter::EnvAAfter, div4_trunc(value_from_index(values, 88)));
    params.insert(SoundParameter::EnvATrigger, value_from_index(values, 90));
}

fn update_sound_lfo1(params: &mut SoundParameterValues, values: &Vec<u8>)
    requires
        values@.len() >= 176,
    ensures
        forall|q: SoundParameter|
            46 <= q.ord() < 50 ==> final(params).spec_get_value(q) as int == sound_dump_value(
                values@,
                q,
            ),
        forall|q: SoundParameter|
            !(46 <= q.ord() < 50) ==> final(params).spec_get_value(q) == old(
                params,
            ).spec_get_value(q),
{
    params.insert(SoundParameter::LFO1Shape, value_from_index(values, 92));
    params.insert(SoundParameter::LFO1Speed, div4_trunc(value_from_index(values, 94)));
    params.insert(SoundParameter::LFO1Rise, div4_trunc(value_from_index(values, 96)));
    params.insert(SoundParameter::LFO1Phase, value_from_index(values, 98));
}

fn update_sound_lfo2(params: &mut SoundParameterValues, values: &Vec<u8>)
    requires
        values@.len() >= 176,
    ensures
        forall|q: SoundParameter|
            50 <= q.ord() < 54 ==> final(params).spec_get_value(q) as int == sound_dump_value(
                values@,
                q,
            ),
        forall|q: SoundParameter|
            !(50 <= q.ord() < 54) ==> final(params).spec_get_value(q) == old(
                params,
            ).spec_get_value(q),
{
    params.insert(SoundParameter::LFO2Shape, value_from_index(values, 100));
    params.insert(SoundParameter::LFO2Speed, div4_trunc(value_from_index(values, 102)));
    params.insert(SoundParameter::LFO2Rise, div4_trunc(value_from_index(values, 104)));
    params.insert(SoundParameter::LFO2Phase, value_from_index(values, 106));
}

fn update_sound_arp(params: &mut SoundParameterValues, values: &Vec<u8>)
    requires
        values@.len() >= 176,
    ensures
        forall|q: SoundParameter|
            54 <= q.ord() < 58 ==> final(params).spec_get_value(q) as int == sound_dump_value(
                values@,
                q,
            ),
        forall|q: SoundParameter|
            !(54 <= q.ord() < 58) ==> final(params).spec_get_value(q) == old(
                params,
            ).spec_get_value(q),
{
    params.insert(SoundParameter::ArpMode, value_from_index(values, 108));
    params.insert(SoundParameter::ArpGrid, value_from_index(values, 110));
    params.insert(SoundParameter::ArpTempo, wire_to_arp(value_from_index(values, 112)));
    params.insert(SoundParameter::ArpHold, value_from_index(values, 114));
}

fn update_sound_amp(params: &mut SoundParameterValues, values: &Vec<u8>)
    requires
        values@.len() >= 176,
    ensures
        forall|q: SoundParameter|
            58 <= q.ord() < 60 ==> final(params).spec_get_value(q) as int == sound_dump_value(
                values@,
                q,
            ),
        forall|q: SoundParameter|
            !(58 <= q.ord() < 60) ==> final(params).spec_get_value(q) == old(
                params,
            ).spec_get_value(q),
{
    params.insert(SoundParameter::AmpLevel, div4_trunc(value_from_index(values, 116)));
    params.insert(SoundParameter::AmpPan, div4_trunc(value_from_index(values, 118)));
}

fn update_sound_mod_a(params: &mut SoundParameterValues, values: &Vec<u8>)
    requires
        values@.len() >= 176,
    ensures
        forall|q: SoundParameter|
            60 <= q.ord() < 68 ==> final(params).spec_get_value(q) as int == sound_dump_value(
                values@,
                q,
            ),
        forall|q: SoundParameter|
            !(60 <= q.ord() < 68) ==> final(params).spec_get_value(q) == old(
                params,
            ).spec_get_value(q),
{
    params.insert(SoundParameter::ModEnvFAmount, div4_trunc(value_from_index(values, 120)));
    params.insert(SoundParameter::ModEnvFTarget, value_from_index(values, 122));
    params.insert(SoundParameter::ModEnvAAmount, div4_trunc(value_from_index(values, 124)));
    params.insert(SoundParameter::ModEnvATarget, value_from_index(values, 126));
    params.insert(SoundParameter::ModLFO1Amount, div4_trunc(value_from_index(values, 128)));
    params.insert(SoundParameter::ModLFO1Target, value_from_index(values, 130));
    params.insert(SoundParameter::ModLFO2Amount, div4_trunc(value_from_index(values, 132)));
    params.insert(SoundParameter::ModLFO2Target, value_from_index(values, 134));
}

fn update_sound_mod_b(params: &mut SoundParameterValues, values: &Vec<u8>)
    requires
        values@.len() >= 176,
    ensures
        forall|q: SoundParameter|
            68 <= q.ord() < 76 ==> final(params).spec_get_value(q) as int == sound_dump_value(
                values@,
                q,
            ),
        forall|q: SoundParameter|
            !(68 <= q.ord() < 76) ==> final(params).spec_get_value(q) == old(
                params,
            ).spec_get_value(q),
{
    params.insert(SoundParameter::ModModwheelAmount, div4_trunc(value_from_index(values, 136)));
    params.insert(SoundParameter::ModModwheelTarget, value_from_index(values, 138));
    params.insert(SoundParameter::ModPitchAmount, div4_trunc(value_from_index(values, 140)));
    params.insert(SoundParameter::ModPitchTarget, value_from_index(values, 142));
    params.insert(SoundParameter::ModVelocityAmount, div4_trunc(value_from_index(values, 144)));
    params.insert(SoundParameter::ModVelocityTarget, value_from_index(values, 146));
    params.insert(SoundParameter::ModAftertouchAmount, div4_trunc(value_from_index(values, 148)));
    params.insert(SoundParameter::ModAftertouchTarget, value_from_index(values, 150));
}

fn update_sound_misc(params: &mut SoundParameterValues, values: &Vec<u8>)
    requires
        values@.len() >= 176,
    ensures
        forall|q: SoundParameter|
            76 <= q.ord() < 79 ==> final(params).spec_get_value(q) as int == sound_dump_value(
                values@,
                q,
            ),
        forall|q: SoundParameter|
            !(76 <= q.ord() < 79) ==> final(params).spec_get_value(q) == old(
                params,
            ).spec_get_value(q),
{
    params.insert(SoundParameter::Tune, value_from_index(values, 168));
    params.insert(SoundParameter::BendRange, value_from_index(values, 172));
    params.insert(SoundParameter::PolyMode, value_from_index(values, 174));
}

/// Update all sound parameters according to sysex data.
///
/// - `params`  Parameter map to be updated
/// - `values`  Raw values from unpacked sysex data
pub fn update_sound_params(params: &mut SoundParameterValues, values: &Vec<u8>)
    requires
        values@.len() >= 176,
    ensures
        forall|p: SoundParameter|
            final(params).spec_get_value(p) as int == sound_dump_value(values@, p),
{
    update_sound_osc1(params, values);
    update_sound_osc2(params, values);
    update_sound_extra(params, values);
    update_sound_shaper(params, values);
    update_sound_filter(params, values);
    update_sound_env_f(params, values);
    update_sound_env_a(params, values);
    update_sound_lfo1(params, values);
    update_sound_lfo2(params, values);
    update_sound_arp(params, values);
    update_sound_amp(params, values);
    update_sound_mod_a(params, values);
    update_sound_mod_b(params, values);
    update_sound_misc(params, values);
}

fn update_multi_parts(params: &mut MultiParameterValues, values: &Vec<u8>)
    requires
        values@.len() >= 42,
    ensures
        forall|q: MultiParameter|
            0 <= q.ord() < 8 ==> final(params).spec_get_value(q) as int == multi_dump_value(
                values@,
                q,
            ),
        forall|q: MultiParameter|
            !(0 <= q.ord() < 8) ==> final(params).spec_get_value(q) == old(
                params,
            ).spec_get_value(q),
{
    params.insert(MultiParameter::PresetPart1, value_from_index(values, 0));
    params.insert(MultiParameter::PresetPart2, value_from_index(values, 2));
    params.insert(MultiParameter::PresetPart3, value_from_index(values, 4));
    params.insert(MultiParameter::PresetPart4, value_from_index(values, 6));
    params.insert(MultiParameter::ChannelPart1, value_from_index(values, 8));
    params.insert(MultiParameter::ChannelPart2, value_from_index(values, 10));
    params.insert(MultiParameter::ChannelPart3, value_from_index(values, 12));
    params.insert(MultiParameter::ChannelPart4, value_from_index(values, 14));
}

fn update_multi_mixer(params: &mut MultiParameterValues, values: &Vec<u8>)
    requires
        values@.len() >= 42,
    ensures
        forall|q: MultiParameter|
            8 <= q.ord() < 16 ==> final(params).spec_get_value(q) as int == multi_dump_value(
                values@,
                q,
            ),
        forall|q: MultiParameter|
            !(8 <= q.ord() < 16) ==> final(params).spec_get_value(q) == old(
                params,
            ).spec_get_value(q),
{
    params.insert(MultiParameter::VolumePart1, div4_trunc(value_from_index(values, 16)));
    params.insert(MultiParameter::VolumePart2, div4_trunc(value_from_index(values, 18)));
    params.insert(MultiParameter::VolumePart3, div4_trunc(value_from_index(values, 20)));
    params.insert(MultiParameter::VolumePart4, div4_trunc(value_from_index(values, 22)));
    params.insert(MultiParameter::BalancePart1, div4_trunc(value_from_index(values, 24)));
    params.insert(MultiParameter::BalancePart2, div4_trunc(value_from_index(values, 26)));
    params.insert(MultiParameter::BalancePart3, div4_trunc(value_from_index(values, 28)));
    params.insert(MultiParameter::BalancePart4, div4_trunc(value_from_index(values, 30)));
}

fn update_multi_fx(params: &mut MultiParameterValues, values: &Vec<u8>)
    requires
        values@.len() >= 42,
    ensures
        forall|q: MultiParameter|
            16 <= q.ord() < 22 ==> final(params).spec_get_value(q) as int == multi_dump_value(
                values@,
                q,
            ),
        forall|q: MultiParameter|
            !(16 <= q.ord() < 22) ==> final(params).spec_get_value(q) == old(
                params,
            ).spec_get_value(q),
{
    params.insert(MultiParameter::FXLength, div4_trunc(value_from_index(values, 32)));
    params.insert(MultiParameter::FXFeedback, div4_trunc(value_from_index(values, 34)));
    params.insert(MultiParameter::FXMix, div4_trunc(value_from_index(values, 36)));
    params.insert(MultiParameter::FXMode, value_from_index(values, 38));
    params.insert(MultiParameter::FXSpeed, div4_trunc(value_from_index(values, 40)));
    params.insert(MultiParameter::FXDepth, div4_trunc(value_from_index(values, 40)));
}

/// Update all multi parameters according to sysex data.
///
/// - `params`  Parameter map to be updated
/// - `values`  Raw values from unpacked sysex data
pub fn update_multi_params(params: &mut MultiParameterValues, values: &Vec<u8>)
    requires
        values@.len() >= 42,
    ensures
        forall|p: MultiParameter|
            final(params).spec_get_value(p) as int == multi_dump_value(values@, p),
{
    update_multi_parts(params, values);
    update_multi_mixer(params, values);
    update_multi_fx(params, values);
}

/// Decoding undoes encoding over the wire-offset/scale table: every sound
/// parameter other than `ArpTempo` round-trips exactly for every value in its
/// declared range.  `ArpTempo` is carried at a coarser 1024-step resolution
/// and does not round-trip exactly.
pub proof fn lemma_wire_roundtrip(p: SoundParameter, v: int)
    requires
        p.in_range(v),
        p != SoundParameter::ArpTempo,
    ensures
        decode_scaled(p, encode_scaled(p, v)) == v,
{
    if wire_scale(p) == 4 {
        if v >= 0 {
            lemma_div_multiples_vanish(v, 4);
        } else {
            lemma_div_multiples_vanish(-v, 4);
        }
    } else {
        if v >= 0 {
            lemma_div_basics_2(v);
        } else {
            lemma_div_basics_2(-v);
        }
    }
}

/// The tempo parameter is carried at a 1024-step resolution over its 180
/// usable values, so a tempo at or above the rescale origin comes back from
/// the wire as itself or one below it; values below the origin, and an exact
/// round trip, are not promised.
pub proof fn lemma_arp_tempo_roundtrip_close(v: int)
    requires
        20 <= v <= 199,
    ensures
        v - 1 <= decode_scaled(SoundParameter::ArpTempo, encode_scaled(SoundParameter::ArpTempo, v))
            <= v,
{
    let d = v - 20;
    let w = (d * 1024) / 179;
    lemma_div_pos_is_pos(d * 1024, 179);
    lemma_fundamental_div_mod(d * 1024, 179);
    lemma_mod_division_less_than_divisor(d * 1024, 179);
    let rem = (d * 1024) % 179;
    assert(179 * w == d * 1024 - rem);
    lemma_mul_is_commutative(179, w);
    // upper bound: w * 179 <= d * 1024, so (w * 179) / 1024 <= d
    lemma_div_is_ordered(w * 179, d * 1024, 1024);
    lemma_mul_is_commutative(d, 1024);
    lemma_div_multiples_vanish(d, 1024);
    // lower bound: w * 179 >= d * 1024 - 178 >= (d - 1) * 1024
    lemma_div_is_ordered((d - 1) * 1024, w * 179, 1024);
    lemma_mul_is_commutative(d - 1, 1024);
    lemma_div_multiples_vanish(d - 1, 1024);
}

/// Applying one dump to a value table determines the table completely, so a
/// second application of the same dump changes nothing: any two sound tables
/// that hold the values decoded from `values` are equal as maps.
pub proof fn lemma_sound_dump_idempotent(
    a: SoundParameterValues,
    b: SoundParameterValues,
    values: Seq<u8>,
)
    requires
        forall|p: SoundParameter| a.spec_get_value(p) as int == sound_dump_value(values, p),
        forall|p: SoundParameter| b.spec_get_value(p) as int == sound_dump_value(values, p),
    ensures
        a.as_map() =~= b.as_map(),
{
    assert forall|p: SoundParameter| a.as_map()[p] == b.as_map()[p] by {
        assert(a.spec_get_value(p) as int == sound_dump_value(values, p));
        assert(b.spec_get_value(p) as int == sound_dump_value(values, p));
    }
}

/// The multi-table counterpart of [`lemma_sound_dump_idempotent`].
pub proof fn lemma_multi_dump_idempotent(
    a: MultiParameterValues,
    b: MultiParameterValues,
    values: Seq<u8>,
)
    requires
        forall|p: MultiParameter| a.spec_get_value(p) as int == multi_dump_value(values, p),
        forall|p: MultiParameter| b.spec_get_value(p) as int == multi_dump_value(values, p),
    ensures
        a.as_map() =~= b.as_map(),
{
    assert forall|p: MultiParameter| a.as_map()[p] == b.as_map()[p] by {
        assert(a.spec_get_value(p) as int == multi_dump_value(values, p));
        assert(b.spec_get_value(p) as int == multi_dump_value(values, p));
    }
}

} // verus!
