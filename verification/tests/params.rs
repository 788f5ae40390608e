use tooro_core::params::GetValue;
use tooro_core::params::MultiParameter;
use tooro_core::params::MultiParameterValues;
use tooro_core::params::SoundParameter;
use tooro_core::params::SoundParameterValues;

#[test]
fn sound_ranges_match_the_device() {
    assert_eq!(SoundParameter::Osc1Wave.get_range(), 0..=255);
    assert_eq!(SoundParameter::Osc1FMRate.get_range(), -128..=128);
    assert_eq!(SoundParameter::Osc1Coarse.get_range(), -36..=36);
    assert_eq!(SoundParameter::Osc2Fine.get_range(), -99..=99);
    assert_eq!(SoundParameter::FilterTrack.get_range(), -20..=20);
    assert_eq!(SoundParameter::ArpTempo.get_range(), 1..=199);
    assert_eq!(SoundParameter::Osc1Table.get_range(), 0..=10);
    assert_eq!(SoundParameter::ShaperMode.get_range(), 0..=2);
    assert_eq!(SoundParameter::LFO1Shape.get_range(), 0..=7);
    assert_eq!(SoundParameter::LFO2Phase.get_range(), 0..=5);
    assert_eq!(SoundParameter::ArpMode.get_range(), 0..=7);
    assert_eq!(SoundParameter::ArpGrid.get_range(), 0..=6);
    assert_eq!(SoundParameter::ModEnvFTarget.get_range(), 0..=21);
    assert_eq!(SoundParameter::ArpHold.get_range(), 0..=1);
    assert_eq!(SoundParameter::PolyMode.get_range(), 0..=1);
    assert_eq!(SoundParameter::Tune.get_range(), -128..=128);
}

#[test]
fn multi_ranges_match_the_device() {
    assert_eq!(MultiParameter::PresetPart1.get_range(), 0..=99);
    assert_eq!(MultiParameter::ChannelPart4.get_range(), 0..=15);
    assert_eq!(MultiParameter::VolumePart2.get_range(), 0..=255);
    assert_eq!(MultiParameter::BalancePart3.get_range(), -128..=128);
    assert_eq!(MultiParameter::FXLength.get_range(), 0..=255);
    assert_eq!(MultiParameter::FXMode.get_range(), 0..=4);
}

#[test]
fn defaults_are_zero() {
    assert_eq!(SoundParameter::Osc1Wave.get_default(), 0);
    assert_eq!(SoundParameter::ArpTempo.get_default(), 0);
    assert_eq!(MultiParameter::FXMode.get_default(), 0);
}

// The range invariant: zero, the common default, lies inside every declared
// range, with the one exception of ArpTempo whose range starts at 1.
#[test]
fn defaults_lie_inside_the_ranges() {
    let sound = [
        SoundParameter::Osc1Wave,
        SoundParameter::Osc1Coarse,
        SoundParameter::Osc2Fine,
        SoundParameter::FilterTrack,
        SoundParameter::ShaperMode,
        SoundParameter::LFO1Phase,
        SoundParameter::ModAftertouchTarget,
        SoundParameter::AmpPan,
        SoundParameter::PolyMode,
        SoundParameter::Tune,
    ];
    for p in sound {
        let r = p.get_range();
        assert!(*r.start() <= p.get_default() && p.get_default() <= *r.end());
    }
    let arp = SoundParameter::ArpTempo.get_range();
    assert!(*arp.start() > SoundParameter::ArpTempo.get_default());
    let multi = [
        MultiParameter::PresetPart1,
        MultiParameter::ChannelPart2,
        MultiParameter::VolumePart3,
        MultiParameter::BalancePart4,
        MultiParameter::FXMode,
        MultiParameter::FXDepth,
    ];
    for p in multi {
        let r = p.get_range();
        assert!(*r.start() <= p.get_default() && p.get_default() <= *r.end());
    }
}

#[test]
fn fresh_tables_answer_with_defaults() {
    let sound = SoundParameterValues::new();
    assert_eq!(sound.get_value(SoundParameter::FilterCutoff), 0);
    assert_eq!(sound.get_value(SoundParameter::ArpTempo), 0);
    let multi = MultiParameterValues::new();
    assert_eq!(multi.get_value(MultiParameter::VolumePart1), 0);
}

#[test]
fn insert_stores_and_leaves_others_alone() {
    let mut sound = SoundParameterValues::new();
    sound.insert(SoundParameter::FilterCutoff, 200);
    sound.insert(SoundParameter::Osc1Coarse, -12);
    assert_eq!(sound.get_value(SoundParameter::FilterCutoff), 200);
    assert_eq!(sound.get_value(SoundParameter::Osc1Coarse), -12);
    assert_eq!(sound.get_value(SoundParameter::Osc2Coarse), 0);
    sound.insert(SoundParameter::FilterCutoff, 17);
    assert_eq!(sound.get_value(SoundParameter::FilterCutoff), 17);
    assert_eq!(sound.get_value(SoundParameter::Osc1Coarse), -12);

    let mut multi = MultiParameterValues::new();
    multi.insert(MultiParameter::BalancePart2, -100);
    assert_eq!(multi.get_value(MultiParameter::BalancePart2), -100);
    assert_eq!(multi.get_value(MultiParameter::BalancePart1), 0);
}
