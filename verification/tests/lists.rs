use tooro_core::lists::ArpGrid;
use tooro_core::lists::ArpMode;
use tooro_core::lists::EnvTrigger;
use tooro_core::lists::FXMode;
use tooro_core::lists::LFOPhase;
use tooro_core::lists::LFOShape;
use tooro_core::lists::MidiChannel;
use tooro_core::lists::ModTarget;
use tooro_core::lists::PartList;
use tooro_core::lists::ShaperMode;
use tooro_core::lists::Wavetable;

#[test]
fn list_lengths_match_the_parameter_ranges() {
    assert_eq!(LFOShape::all().len(), 8);
    assert_eq!(LFOPhase::all().len(), 6);
    assert_eq!(Wavetable::all().len(), 11);
    assert_eq!(ShaperMode::all().len(), 3);
    assert_eq!(EnvTrigger::all().len(), 3);
    assert_eq!(ArpMode::all().len(), 8);
    assert_eq!(ArpGrid::all().len(), 7);
    assert_eq!(FXMode::all().len(), 4);
    assert_eq!(MidiChannel::all().len(), 17);
    assert_eq!(PartList::all().len(), 4);
    assert_eq!(ModTarget::all().len(), 22);
}

#[test]
fn values_count_up_in_list_order() {
    for (k, shape) in LFOShape::all().into_iter().enumerate() {
        assert_eq!(shape.value(), k as i32);
    }
    for (k, target) in ModTarget::all().into_iter().enumerate() {
        assert_eq!(target.value(), k as i32);
    }
}

#[test]
fn values_look_up_their_choice() {
    assert_eq!(LFOShape::from_value(0), Some(LFOShape::Triangle));
    assert_eq!(LFOShape::from_value(4), Some(LFOShape::MWave));
    assert_eq!(LFOShape::from_value(8), None);
    assert_eq!(LFOShape::from_value(-1), None);
    assert_eq!(Wavetable::from_value(10), Some(Wavetable::RandomChord));
    assert_eq!(MidiChannel::from_value(0), Some(MidiChannel::Omni));
    assert_eq!(MidiChannel::from_value(16), Some(MidiChannel::Channel16));
    assert_eq!(MidiChannel::from_value(17), None);
    assert_eq!(ModTarget::from_value(12), Some(ModTarget::ExtraNoise));
    assert_eq!(ModTarget::from_value(13), Some(ModTarget::ExtraRingMod));
    assert_eq!(PartList::from_value(3), Some(PartList::Part4));
    assert_eq!(FXMode::from_value(2), Some(FXMode::ChorusFlanger));
}

// Every choice round-trips through its value.
#[test]
fn every_choice_roundtrips_through_its_value() {
    for shape in LFOShape::all() {
        assert_eq!(LFOShape::from_value(shape.value()), Some(shape));
    }
    for table in Wavetable::all() {
        assert_eq!(Wavetable::from_value(table.value()), Some(table));
    }
    for channel in MidiChannel::all() {
        assert_eq!(MidiChannel::from_value(channel.value()), Some(channel));
    }
    for target in ModTarget::all() {
        assert_eq!(ModTarget::from_value(target.value()), Some(target));
    }
}

#[test]
fn labels_match_the_front_panel() {
    assert_eq!(LFOShape::RampUp.label(), "Ramp Up");
    assert_eq!(LFOShape::MWave.label(), "M-Wave");
    assert_eq!(LFOPhase::Phase90.label(), "90°");
    assert_eq!(Wavetable::Factory1.label(), "Basic");
    assert_eq!(ShaperMode::Bandpass.label(), "Band-pass");
    assert_eq!(EnvTrigger::Continue.label(), "Continue");
    assert_eq!(ArpGrid::Div32.label(), "1/2 triplet");
    assert_eq!(ArpMode::Down4.label(), "Down 4");
    assert_eq!(FXMode::StereoDelay.label(), "Stereo Delay");
    assert_eq!(MidiChannel::Channel16.label(), "Channel 16");
    assert_eq!(PartList::Part2.label(), "Part 2");
    assert_eq!(ModTarget::ExtraRingMod.label(), "Extra RingMod");
}
