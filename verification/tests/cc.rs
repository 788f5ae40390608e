use tooro_core::cc::cc_message;
use tooro_core::cc::cc_to_sound_param;
use tooro_core::cc::sound_param_to_cc;
use tooro_core::params::SoundParameter;

#[test]
fn mapped_parameters_get_their_controller_number() {
    assert_eq!(sound_param_to_cc(&SoundParameter::FilterCutoff, 255), Some((74, 127)));
    assert_eq!(sound_param_to_cc(&SoundParameter::FilterCutoff, 0), Some((74, 0)));
    assert_eq!(sound_param_to_cc(&SoundParameter::Osc1Wave, 255), Some((70, 127)));
    assert_eq!(sound_param_to_cc(&SoundParameter::EnvADecay, 128), Some((40, 63)));
    // A bipolar range: its midpoint lands just below the CC midpoint.
    assert_eq!(sound_param_to_cc(&SoundParameter::AmpPan, 0), Some((81, 63)));
    assert_eq!(sound_param_to_cc(&SoundParameter::AmpPan, -128), Some((81, 0)));
    assert_eq!(sound_param_to_cc(&SoundParameter::AmpPan, 128), Some((81, 127)));
}

#[test]
fn unmapped_parameters_get_no_controller_number() {
    assert_eq!(sound_param_to_cc(&SoundParameter::PolyMode, 1), None);
    assert_eq!(sound_param_to_cc(&SoundParameter::ModEnvFTarget, 10), None);
    assert_eq!(sound_param_to_cc(&SoundParameter::ModVelocityTarget, 0), None);
}

#[test]
fn assigned_controller_numbers_decode_to_their_parameter() {
    assert_eq!(cc_to_sound_param(74, 127), Some((SoundParameter::FilterCutoff, 255)));
    assert_eq!(cc_to_sound_param(74, 0), Some((SoundParameter::FilterCutoff, 0)));
    assert_eq!(cc_to_sound_param(70, 64), Some((SoundParameter::Osc1Wave, 128)));
    assert_eq!(cc_to_sound_param(81, 0), Some((SoundParameter::AmpPan, -128)));
    assert_eq!(cc_to_sound_param(112, 127), Some((SoundParameter::ArpTempo, 199)));
}

#[test]
fn unassigned_controller_numbers_decode_to_nothing() {
    assert_eq!(cc_to_sound_param(0, 64), None);
    assert_eq!(cc_to_sound_param(1, 64), None);
    assert_eq!(cc_to_sound_param(91, 64), None);
    assert_eq!(cc_to_sound_param(127, 64), None);
}

// The table is reversible; in particular the envelope F velocity and hold
// controls keep their controller numbers in both directions.
#[test]
fn envelope_f_velocity_and_hold_are_consistent_both_ways() {
    assert_eq!(sound_param_to_cc(&SoundParameter::EnvFVelo, 0), Some((51, 0)));
    assert_eq!(sound_param_to_cc(&SoundParameter::EnvFHold, 0), Some((50, 0)));
    assert_eq!(cc_to_sound_param(51, 0), Some((SoundParameter::EnvFVelo, 0)));
    assert_eq!(cc_to_sound_param(50, 0), Some((SoundParameter::EnvFHold, 0)));
}

// The CC round trip: for parameters whose range is no wider than the CC
// range, rescaling there and back reproduces the value within one step.
#[test]
fn cc_roundtrip_is_close_for_narrow_ranges() {
    let narrow = [
        SoundParameter::Osc1Coarse,
        SoundParameter::FilterTrack,
        SoundParameter::Osc1Table,
        SoundParameter::LFO1Shape,
        SoundParameter::ArpGrid,
        SoundParameter::ShaperMode,
        SoundParameter::ArpHold,
    ];
    for p in narrow {
        let r = p.get_range();
        for v in *r.start()..=*r.end() {
            let (num, cc) = sound_param_to_cc(&p, v).unwrap();
            let (q, back) = cc_to_sound_param(num, cc).unwrap();
            assert_eq!(q, p);
            assert!(back == v || back == v - 1, "{:?}: {} came back as {}", p, v, back);
        }
    }
}

#[test]
fn cc_roundtrip_can_lose_two_steps_on_wide_ranges() {
    // Osc1Wave spans 0..=255, twice the CC resolution: 2 comes back as 0.
    let (num, cc) = sound_param_to_cc(&SoundParameter::Osc1Wave, 2).unwrap();
    assert_eq!((num, cc), (70, 0));
    assert_eq!(cc_to_sound_param(num, cc), Some((SoundParameter::Osc1Wave, 0)));
}

#[test]
fn cc_messages_carry_the_channel_in_their_status_byte() {
    assert_eq!(
        cc_message(0, &SoundParameter::FilterCutoff, 255),
        Some(vec![0xB0, 74, 127])
    );
    assert_eq!(
        cc_message(5, &SoundParameter::AmpPan, -128),
        Some(vec![0xB5, 81, 0])
    );
    assert_eq!(cc_message(0, &SoundParameter::PolyMode, 1), None);
}
