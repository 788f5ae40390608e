use tooro_core::params::GetValue;
use tooro_core::params::MultiParameter;
use tooro_core::params::MultiParameterValues;
use tooro_core::params::SoundParameter;
use tooro_core::params::SoundParameterValues;
use tooro_core::sysex::multi_request;
use tooro_core::sysex::pack_data;
use tooro_core::sysex::preset_param_dump;
use tooro_core::sysex::preset_request;
use tooro_core::sysex::unpack_data;
use tooro_core::sysex::update_multi_params;
use tooro_core::sysex::update_sound_params;
use tooro_core::sysex::MULTI_DUMP_LENGTH;
use tooro_core::sysex::PRESET_DUMP_LENGTH;

fn all_sound_params() -> Vec<SoundParameter> {
    vec![
        SoundParameter::Osc1Wave,
        SoundParameter::Osc1Coarse,
        SoundParameter::Osc1FMAmount,
        SoundParameter::Osc1Level,
        SoundParameter::Osc1Table,
        SoundParameter::Osc1Fine,
        SoundParameter::Osc1FMRate,
        SoundParameter::Osc1Sync,
        SoundParameter::Osc2Wave,
        SoundParameter::Osc2FMAmount,
        SoundParameter::Osc2Level,
        SoundParameter::Osc2Coarse,
        SoundParameter::Osc2Table,
        SoundParameter::Osc2Fine,
        SoundParameter::Osc2FMRate,
        SoundParameter::Osc2Sync,
        SoundParameter::ExtraNoise,
        SoundParameter::ExtraRingMod,
        SoundParameter::FilterCutoff,
        SoundParameter::FilterResonance,
        SoundParameter::FilterEnvFAmount,
        SoundParameter::FilterTrack,
        SoundParameter::FilterAfter,
        SoundParameter::FilterLFO1Amount,
        SoundParameter::ShaperCutoff,
        SoundParameter::ShaperResonance,
        SoundParameter::ShaperEnvAAmount,
        SoundParameter::ShaperTrack,
        SoundParameter::ShaperMode,
        SoundParameter::ShaperLFO2Amount,
        SoundParameter::EnvFAttack,
        SoundParameter::EnvFDecay,
        SoundParameter::EnvFSustain,
        SoundParameter::EnvFRelease,
        SoundParameter::EnvFVelo,
        SoundParameter::EnvFHold,
        SoundParameter::EnvFAfter,
        SoundParameter::EnvFTrigger,
        SoundParameter::EnvAAttack,
        SoundParameter::EnvADecay,
        SoundParameter::EnvASustain,
        SoundParameter::EnvARelease,
        SoundParameter::EnvAVelo,
        SoundParameter::EnvAHold,
        SoundParameter::EnvAAfter,
        SoundParameter::EnvATrigger,
        SoundParameter::LFO1Shape,
        SoundParameter::LFO1Speed,
        SoundParameter::LFO1Rise,
        SoundParameter::LFO1Phase,
        SoundParameter::LFO2Shape,
        SoundParameter::LFO2Speed,
        SoundParameter::LFO2Rise,
        SoundParameter::LFO2Phase,
        SoundParameter::ArpMode,
        SoundParameter::ArpGrid,
        SoundParameter::ArpTempo,
        SoundParameter::ArpHold,
        SoundParameter::AmpLevel,
        SoundParameter::AmpPan,
        SoundParameter::ModEnvFAmount,
        SoundParameter::ModEnvFTarget,
        SoundParameter::ModEnvAAmount,
        SoundParameter::ModEnvATarget,
        SoundParameter::ModLFO1Amount,
        SoundParameter::ModLFO1Target,
        SoundParameter::ModLFO2Amount,
        SoundParameter::ModLFO2Target,
        SoundParameter::ModModwheelAmount,
        SoundParameter::ModModwheelTarget,
        SoundParameter::ModPitchAmount,
        SoundParameter::ModPitchTarget,
        SoundParameter::ModVelocityAmount,
        SoundParameter::ModVelocityTarget,
        SoundParameter::ModAftertouchAmount,
        SoundParameter::ModAftertouchTarget,
        SoundParameter::BendRange,
        SoundParameter::Tune,
        SoundParameter::PolyMode,
    ]
}

fn all_multi_params() -> Vec<MultiParameter> {
    vec![
        MultiParameter::PresetPart1,
        MultiParameter::PresetPart2,
        MultiParameter::PresetPart3,
        MultiParameter::PresetPart4,
        MultiParameter::ChannelPart1,
        MultiParameter::ChannelPart2,
        MultiParameter::ChannelPart3,
        MultiParameter::ChannelPart4,
        MultiParameter::VolumePart1,
        MultiParameter::VolumePart2,
        MultiParameter::VolumePart3,
        MultiParameter::VolumePart4,
        MultiParameter::BalancePart1,
        MultiParameter::BalancePart2,
        MultiParameter::BalancePart3,
        MultiParameter::BalancePart4,
        MultiParameter::FXLength,
        MultiParameter::FXFeedback,
        MultiParameter::FXMix,
        MultiParameter::FXMode,
        MultiParameter::FXSpeed,
        MultiParameter::FXDepth,
    ]
}

/// A preset dump frame for target id 0x70 carrying the given unpacked
/// payload (208 raw bytes, re-packed into 260 transmitted bytes).
fn preset_dump_with(raw: &[u8]) -> Vec<u8> {
    assert_eq!(raw.len(), 208);
    let mut msg = vec![0xF0, 0x12, 0x70];
    msg.extend(pack_data(raw));
    msg.push(0xF7);
    assert_eq!(msg.len(), PRESET_DUMP_LENGTH);
    msg
}

fn multi_dump_with(raw: &[u8]) -> Vec<u8> {
    assert_eq!(raw.len(), 80);
    let mut msg = vec![0xF0, 0x11, 0x7F];
    msg.extend(pack_data(raw));
    msg.push(0xF7);
    assert_eq!(msg.len(), MULTI_DUMP_LENGTH);
    msg
}

fn put_wire(raw: &mut [u8], offset: usize, value: i16) {
    let b = value.to_le_bytes();
    raw[offset] = b[0];
    raw[offset + 1] = b[1];
}

#[test]
fn request_frames_have_the_documented_shape() {
    assert_eq!(multi_request(0x7F), vec![0xF0, 0x01, 0x7F, 0xF7]);
    assert_eq!(multi_request(3), vec![0xF0, 0x01, 0x03, 0xF7]);
    assert_eq!(preset_request(0x70), vec![0xF0, 0x02, 0x70, 0xF7]);
    assert_eq!(preset_request(99), vec![0xF0, 0x02, 99, 0xF7]);
}

#[test]
fn preset_param_dump_scales_by_four() {
    // Osc1Wave has wire index 0 and scale 4: 100 becomes 400 = 3 * 128 + 16.
    let frame = preset_param_dump(0x70, &SoundParameter::Osc1Wave, 100);
    assert_eq!(frame, vec![0xF0, 0x13, 0x70, 0, 0, 16, 3, 0xF7]);
}

#[test]
fn preset_param_dump_carries_negatives_in_two_complement_halves() {
    // Osc1Coarse has wire index 1 and scale 1: -36 is 0xFFDC, whose low
    // fourteen bits split into 92 and 127.
    let frame = preset_param_dump(0x71, &SoundParameter::Osc1Coarse, -36);
    assert_eq!(frame, vec![0xF0, 0x13, 0x71, 1, 0, 92, 127, 0xF7]);
}

#[test]
fn preset_param_dump_rescales_the_arp_tempo() {
    // ArpTempo rescales [20, 199] onto 1024 steps: 199 lands on 1024.
    let frame = preset_param_dump(0x70, &SoundParameter::ArpTempo, 199);
    assert_eq!(frame, vec![0xF0, 0x13, 0x70, 56, 0, 0, 8, 0xF7]);
    // Values below the rescale origin go negative: 1 becomes -108.
    let frame = preset_param_dump(0x70, &SoundParameter::ArpTempo, 1);
    assert_eq!(frame, vec![0xF0, 0x13, 0x70, 56, 0, 20, 127, 0xF7]);
}

#[test]
fn unpack_restores_the_high_bits_from_the_tops_byte() {
    let data = vec![0x01, 0x02, 0x03, 0x04, 0b1010];
    assert_eq!(unpack_data(&data), vec![0x01, 0x82, 0x03, 0x84]);
}

#[test]
fn unpack_ignores_a_trailing_partial_group() {
    let data = vec![0x01, 0x02, 0x03, 0x04, 0x00, 0x7F, 0x7F];
    assert_eq!(unpack_data(&data), vec![0x01, 0x02, 0x03, 0x04]);
    assert_eq!(unpack_data(&[]), Vec::<u8>::new());
}

#[test]
fn pack_splits_high_bits_into_the_tops_byte() {
    let raw = vec![0x01, 0x82, 0x03, 0x84];
    assert_eq!(pack_data(&raw), vec![0x01, 0x02, 0x03, 0x04, 0b1010]);
    assert_eq!(pack_data(&[0xFF, 0xFF, 0xFF, 0xFF]), vec![0x7F, 0x7F, 0x7F, 0x7F, 0x0F]);
}

// The packing inverse: packing what was unpacked reproduces any 7-bit-clean
// buffer whose tops bytes use only their low four bits.
#[test]
fn pack_undoes_unpack() {
    let buf = vec![0x10, 0x22, 0x33, 0x44, 0b0101, 0x7F, 0x00, 0x7F, 0x00, 0b1111];
    assert_eq!(pack_data(&unpack_data(&buf)), buf);
}

#[test]
fn unpack_undoes_pack() {
    let raw = vec![0x00, 0x80, 0xFF, 0x7F, 0x90, 0x0A, 0xCC, 0x31];
    assert_eq!(unpack_data(&pack_data(&raw)), raw);
}

#[test]
fn preset_dump_decodes_to_hand_computed_values() {
    let mut raw = vec![0u8; 208];
    put_wire(&mut raw, 0, 400); // Osc1Wave, scale 4 -> 100
    put_wire(&mut raw, 2, -36); // Osc1Coarse, scale 1 -> -36
    put_wire(&mut raw, 54, -5); // FilterTrack, scale 1 -> -5
    put_wire(&mut raw, 112, 512); // ArpTempo: 512 * 179 / 1024 + 20 -> 109
    put_wire(&mut raw, 118, -512); // AmpPan, scale 4 -> -128
    put_wire(&mut raw, 150, 21); // ModAftertouchTarget, scale 1 -> 21
    let msg = preset_dump_with(&raw);

    let mut table = SoundParameterValues::new();
    let values = unpack_data(&msg[3..]);
    update_sound_params(&mut table, &values);

    for p in all_sound_params() {
        let expected = match p {
            SoundParameter::Osc1Wave => 100,
            SoundParameter::Osc1Coarse => -36,
            SoundParameter::FilterTrack => -5,
            SoundParameter::ArpTempo => 109,
            SoundParameter::AmpPan => -128,
            SoundParameter::ModAftertouchTarget => 21,
            _ => 0,
        };
        assert_eq!(table.get_value(p), expected, "{:?}", p);
    }
}

#[test]
fn all_zero_preset_dump_leaves_the_arp_tempo_at_its_origin() {
    let raw = vec![0u8; 208];
    let msg = preset_dump_with(&raw);
    let mut table = SoundParameterValues::new();
    table.insert(SoundParameter::FilterCutoff, 123);
    let values = unpack_data(&msg[3..]);
    update_sound_params(&mut table, &values);
    for p in all_sound_params() {
        let expected = if p == SoundParameter::ArpTempo { 20 } else { 0 };
        assert_eq!(table.get_value(p), expected, "{:?}", p);
    }
}

// Idempotence: applying the same dump twice yields the same table as
// applying it once.
#[test]
fn applying_a_dump_twice_changes_nothing_more() {
    let mut raw = vec![0u8; 208];
    put_wire(&mut raw, 6, 1020); // Osc1Level -> 255
    put_wire(&mut raw, 112, 1024); // ArpTempo -> 199
    let msg = preset_dump_with(&raw);
    let values = unpack_data(&msg[3..]);

    let mut once = SoundParameterValues::new();
    update_sound_params(&mut once, &values);
    let mut twice = SoundParameterValues::new();
    update_sound_params(&mut twice, &values);
    update_sound_params(&mut twice, &values);

    for p in all_sound_params() {
        assert_eq!(once.get_value(p), twice.get_value(p), "{:?}", p);
    }
}

#[test]
fn multi_dump_decodes_to_hand_computed_values() {
    let mut raw = vec![0u8; 80];
    put_wire(&mut raw, 0, 42); // PresetPart1 -> 42
    put_wire(&mut raw, 8, 9); // ChannelPart1 -> 9
    put_wire(&mut raw, 16, 1020); // VolumePart1, scale 4 -> 255
    put_wire(&mut raw, 24, -512); // BalancePart1, scale 4 -> -128
    put_wire(&mut raw, 38, 3); // FXMode -> 3
    put_wire(&mut raw, 40, 400); // FXSpeed, scale 4 -> 100
    let msg = multi_dump_with(&raw);

    let mut table = MultiParameterValues::new();
    let values = unpack_data(&msg[3..]);
    update_multi_params(&mut table, &values);

    for p in all_multi_params() {
        let expected = match p {
            MultiParameter::PresetPart1 => 42,
            MultiParameter::ChannelPart1 => 9,
            MultiParameter::VolumePart1 => 255,
            MultiParameter::BalancePart1 => -128,
            MultiParameter::FXMode => 3,
            // FXSpeed and FXDepth both read the wire slot at offset 40.
            MultiParameter::FXSpeed => 100,
            MultiParameter::FXDepth => 100,
            _ => 0,
        };
        assert_eq!(table.get_value(p), expected, "{:?}", p);
    }
}

// The wire round trip: pushing a value through the single-parameter dump
// encoding and decoding it as a dump would reproduces it exactly.
#[test]
fn encode_then_decode_reproduces_sound_values() {
    let cases = [
        (SoundParameter::Osc1Wave, 0),
        (SoundParameter::Osc1Wave, 255),
        (SoundParameter::Osc1Wave, 131),
        (SoundParameter::Osc1Coarse, -36),
        (SoundParameter::Osc1FMRate, -128),
        (SoundParameter::Osc1FMRate, 128),
        (SoundParameter::FilterTrack, -1),
        (SoundParameter::PolyMode, 1),
    ];
    for (p, v) in cases {
        let frame = preset_param_dump(0x70, &p, v);
        // Reassemble the wire value from its 7-bit halves, sign-extending
        // from fourteen bits, and decode it as the dump path would.
        let wire14 = (frame[5] as i32) | ((frame[6] as i32) << 7);
        let wire = if wire14 >= 0x2000 { wire14 - 0x4000 } else { wire14 };
        let scaled_back = if p == SoundParameter::Osc1Wave
            || p == SoundParameter::Osc1FMRate {
            wire / 4
        } else {
            wire
        };
        assert_eq!(scaled_back, v, "{:?} {}", p, v);
    }
}

// The tempo round trip: at or above the rescale origin the wire encoding
// loses at most one step.
#[test]
fn arp_tempo_roundtrip_loses_at_most_one_step() {
    for v in 20..=199 {
        let frame = preset_param_dump(0x70, &SoundParameter::ArpTempo, v);
        let wire14 = (frame[5] as i32) | ((frame[6] as i32) << 7);
        let wire = if wire14 >= 0x2000 { wire14 - 0x4000 } else { wire14 };
        let back = wire * 179 / 1024 + 20;
        assert!(back == v || back == v - 1, "{} came back as {}", v, back);
    }
    // Below the origin the round trip drifts: 21 already comes back as 20,
    // and 1 comes back as 2.
    let frame = preset_param_dump(0x70, &SoundParameter::ArpTempo, 21);
    let wire = (frame[5] as i32) | ((frame[6] as i32) << 7);
    assert_eq!(wire * 179 / 1024 + 20, 20);
}
