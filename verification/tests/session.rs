use tooro_core::params::GetValue;
use tooro_core::params::MultiParameter;
use tooro_core::params::SoundParameter;
use tooro_core::session::Session;
use tooro_core::sysex::pack_data;

fn preset_dump(target: u8, raw: &[u8]) -> Vec<u8> {
    assert_eq!(raw.len(), 208);
    let mut msg = vec![0xF0, 0x12, target];
    msg.extend(pack_data(raw));
    msg.push(0xF7);
    msg
}

fn multi_dump(target: u8, raw: &[u8]) -> Vec<u8> {
    assert_eq!(raw.len(), 80);
    let mut msg = vec![0xF0, 0x11, target];
    msg.extend(pack_data(raw));
    msg.push(0xF7);
    msg
}

fn put_wire(raw: &mut [u8], offset: usize, value: i16) {
    let b = value.to_le_bytes();
    raw[offset] = b[0];
    raw[offset + 1] = b[1];
}

fn device_names() -> Vec<String> {
    vec!["Tooro MIDI 1".to_string()]
}

fn connected_session() -> Session {
    let mut session = Session::new();
    let outcome = session.tick(&device_names(), &device_names());
    assert!(outcome.connected && outcome.became_connected);
    session
}

#[test]
fn a_fresh_session_is_disconnected_and_empty() {
    let session = Session::new();
    assert!(!session.is_connected());
    assert_eq!(session.current_part(), 0);
    assert!(session.get_merge_inputs().is_empty());
    assert_eq!(session.sound_values().get_value(SoundParameter::FilterCutoff), 0);
    assert_eq!(session.multi_values().get_value(MultiParameter::FXMode), 0);
}

// Connection needs both sides: an input named like the device with no
// output present leaves the session disconnected.
#[test]
fn input_alone_does_not_connect() {
    let mut session = Session::new();
    let outcome = session.tick(&device_names(), &Vec::new());
    assert_eq!(outcome.input_port, Some(0));
    assert_eq!(outcome.output_port, None);
    assert!(!outcome.connected);
    assert!(!outcome.became_connected);
    assert!(!session.is_connected());
}

#[test]
fn both_sides_present_connect_and_a_vanished_device_disconnects() {
    let mut session = Session::new();
    let outcome = session.tick(&device_names(), &device_names());
    assert!(outcome.connected && outcome.became_connected);
    assert!(session.is_connected());
    let outcome = session.tick(&device_names(), &device_names());
    assert!(outcome.connected && !outcome.became_connected);
    let outcome = session.tick(&Vec::new(), &Vec::new());
    assert!(!outcome.connected && outcome.became_disconnected);
    assert!(!session.is_connected());
}

#[test]
fn scanning_cleans_names_and_collects_merge_candidates() {
    let mut session = Session::new();
    let inputs = vec![
        "Midi Through:Midi Through Port-0 14:0".to_string(),
        "Tooro:Tooro MIDI 1 28:0".to_string(),
        "KeyStep:KeyStep 32 24:0".to_string(),
    ];
    let outcome = session.tick(&inputs, &Vec::new());
    assert_eq!(outcome.input_port, Some(1));
    assert_eq!(
        session.get_merge_inputs(),
        &vec!["Midi Through Port-0 14:0".to_string(), "KeyStep 32 24:0".to_string()]
    );
    session.select_merge_input("KeyStep 32 24:0".to_string());
    assert_eq!(session.selected_merge_input(), "KeyStep 32 24:0");
}

// A changed value is recorded and, while connected, pushed to the wire as a
// single-parameter dump; an unchanged value sends nothing.
#[test]
fn equal_value_sends_no_frame() {
    let mut session = connected_session();
    let first = session.submit_sound_change(SoundParameter::FilterCutoff, 100);
    assert_eq!(first, Some(vec![0xF0, 0x13, 0x70, 24, 0, 16, 3, 0xF7]));
    assert_eq!(session.sound_values().get_value(SoundParameter::FilterCutoff), 100);
    let second = session.submit_sound_change(SoundParameter::FilterCutoff, 100);
    assert_eq!(second, None);
    assert_eq!(session.sound_values().get_value(SoundParameter::FilterCutoff), 100);
}

#[test]
fn edits_while_disconnected_only_update_the_table() {
    let mut session = Session::new();
    let send = session.submit_sound_change(SoundParameter::AmpLevel, 42);
    assert_eq!(send, None);
    assert_eq!(session.sound_values().get_value(SoundParameter::AmpLevel), 42);
}

#[test]
fn multi_edits_are_recorded_in_the_table() {
    let mut session = connected_session();
    assert!(session.submit_multi_change(MultiParameter::FXMode, 2));
    assert!(!session.submit_multi_change(MultiParameter::FXMode, 2));
    assert_eq!(session.multi_values().get_value(MultiParameter::FXMode), 2);
}

#[test]
fn connecting_requests_both_dumps_in_turn() {
    let mut session = connected_session();
    // First fast tick: the preset request for part 1 goes out.
    let r = session.fast_tick(0, None);
    assert_eq!(r.send, Some(vec![0xF0, 0x02, 0x70, 0xF7]));
    assert!(!r.timeout);
    // While it is outstanding, nothing else goes out.
    let r = session.fast_tick(50, None);
    assert_eq!(r.send, None);
    // Answer it; the multi request follows on the same tick.
    let r = session.fast_tick(100, Some(&preset_dump(0x70, &[0u8; 208])));
    assert_eq!(r.send, Some(vec![0xF0, 0x01, 0x7F, 0xF7]));
    assert_eq!(session.sound_values().get_value(SoundParameter::ArpTempo), 20);
}

// The timeout scenario: a preset request goes out, 1.2 seconds pass with no
// response, the request is abandoned; the response that then arrives too
// late is discarded as unmatched.
#[test]
fn a_late_response_is_discarded_after_the_timeout() {
    let mut session = connected_session();
    let r = session.fast_tick(0, None);
    assert_eq!(r.send, Some(vec![0xF0, 0x02, 0x70, 0xF7]));
    let r = session.fast_tick(500, None);
    assert!(!r.timeout);
    let r = session.fast_tick(1200, None);
    assert!(r.timeout);
    // The late dump would have set ArpTempo to 20; it must change nothing.
    let mut raw = [0u8; 208];
    put_wire(&mut raw, 0, 400);
    let r = session.fast_tick(1200, Some(&preset_dump(0x70, &raw)));
    assert!(!r.timeout);
    assert_eq!(session.sound_values().get_value(SoundParameter::Osc1Wave), 0);
    assert_eq!(session.sound_values().get_value(SoundParameter::ArpTempo), 0);
    // The pending multi update goes out instead.
    assert_eq!(r.send, Some(vec![0xF0, 0x01, 0x7F, 0xF7]));
}

#[test]
fn dumps_for_another_target_are_ignored() {
    let mut session = connected_session();
    let r = session.fast_tick(0, None);
    assert_eq!(r.send, Some(vec![0xF0, 0x02, 0x70, 0xF7]));
    // A dump for part 2 does not match the request for part 1.
    let r = session.fast_tick(10, Some(&preset_dump(0x71, &[0u8; 208])));
    assert_eq!(r.send, None);
    assert_eq!(session.sound_values().get_value(SoundParameter::ArpTempo), 0);
    // The matching dump is still accepted afterwards.
    session.fast_tick(20, Some(&preset_dump(0x70, &[0u8; 208])));
    assert_eq!(session.sound_values().get_value(SoundParameter::ArpTempo), 20);
}

#[test]
fn malformed_dumps_are_ignored_entirely() {
    let mut session = connected_session();
    session.fast_tick(0, None);
    // Right service id, wrong length: one byte short.
    let mut short = preset_dump(0x70, &[0u8; 208]);
    short.pop();
    let r = session.fast_tick(10, Some(&short));
    assert_eq!(r.send, None);
    assert!(!r.timeout);
    assert_eq!(session.sound_values().get_value(SoundParameter::ArpTempo), 0);
}

// The accepted preset dump decodes into the table: a golden frame with
// known payload bytes yields hand-computed values for every parameter.
#[test]
fn an_accepted_preset_dump_fills_the_table() {
    let mut session = connected_session();
    let r = session.fast_tick(0, None);
    assert_eq!(r.send, Some(vec![0xF0, 0x02, 0x70, 0xF7]));
    let mut raw = [0u8; 208];
    put_wire(&mut raw, 0, 400); // Osc1Wave -> 100
    put_wire(&mut raw, 2, -36); // Osc1Coarse -> -36
    put_wire(&mut raw, 112, 1024); // ArpTempo -> 199
    let r = session.fast_tick(10, Some(&preset_dump(0x70, &raw)));
    assert!(!r.timeout);
    assert_eq!(session.sound_values().get_value(SoundParameter::Osc1Wave), 100);
    assert_eq!(session.sound_values().get_value(SoundParameter::Osc1Coarse), -36);
    assert_eq!(session.sound_values().get_value(SoundParameter::ArpTempo), 199);
    assert_eq!(session.sound_values().get_value(SoundParameter::Osc2Wave), 0);
}

#[test]
fn an_accepted_multi_dump_fills_the_multi_table() {
    let mut session = connected_session();
    session.fast_tick(0, None);
    session.fast_tick(10, Some(&preset_dump(0x70, &[0u8; 208])));
    // The multi request went out on the previous tick; answer it.
    let mut raw = [0u8; 80];
    put_wire(&mut raw, 0, 7); // PresetPart1 -> 7
    put_wire(&mut raw, 16, 1020); // VolumePart1 -> 255
    let r = session.fast_tick(200, Some(&multi_dump(0x7F, &raw)));
    assert!(!r.timeout);
    assert_eq!(session.multi_values().get_value(MultiParameter::PresetPart1), 7);
    assert_eq!(session.multi_values().get_value(MultiParameter::VolumePart1), 255);
}

#[test]
fn echoes_right_after_an_accepted_dump_are_ignored() {
    let mut session = connected_session();
    session.fast_tick(0, None);
    // Accept the response to the preset request.
    let r = session.fast_tick(10, Some(&preset_dump(0x70, &[0u8; 208])));
    // The multi request goes out at once; a multi dump echoed back within
    // the guard window is ignored even though it matches.
    assert_eq!(r.send, Some(vec![0xF0, 0x01, 0x7F, 0xF7]));
    let mut raw = [0u8; 80];
    put_wire(&mut raw, 0, 55);
    let r = session.fast_tick(50, Some(&multi_dump(0x7F, &raw)));
    assert_eq!(r.send, None);
    assert_eq!(session.multi_values().get_value(MultiParameter::PresetPart1), 0);
    // Outside the guard window the same dump is accepted.
    session.fast_tick(150, Some(&multi_dump(0x7F, &raw)));
    assert_eq!(session.multi_values().get_value(MultiParameter::PresetPart1), 55);
}

#[test]
fn a_panel_touch_on_the_device_requests_a_full_resync() {
    let mut session = connected_session();
    session.fast_tick(0, None);
    session.fast_tick(10, Some(&preset_dump(0x70, &[0u8; 208])));
    session.fast_tick(200, Some(&multi_dump(0x7F, &[0u8; 80])));
    // Both flags are now served; nothing further goes out.
    let r = session.fast_tick(300, None);
    assert_eq!(r.send, None);
    // A Control-Change from the device's own panel re-arms both requests.
    let r = session.fast_tick(400, Some(&vec![0xB0, 74, 100]));
    assert_eq!(r.send, Some(vec![0xF0, 0x02, 0x70, 0xF7]));
}

#[test]
fn part_change_requests_the_new_preset() {
    let mut session = connected_session();
    session.fast_tick(0, None);
    session.fast_tick(10, Some(&preset_dump(0x70, &[0u8; 208])));
    session.fast_tick(200, Some(&multi_dump(0x7F, &[0u8; 80])));
    session.part_change(2);
    assert_eq!(session.current_part(), 2);
    let r = session.fast_tick(300, None);
    assert_eq!(r.send, Some(vec![0xF0, 0x02, 0x72, 0xF7]));
    // The dump for the new part is matched against target 0x72.
    session.fast_tick(310, Some(&preset_dump(0x72, &[0u8; 208])));
    assert_eq!(session.sound_values().get_value(SoundParameter::ArpTempo), 20);
}

#[test]
fn disconnect_abandons_requests_and_flags() {
    let mut session = connected_session();
    let r = session.fast_tick(0, None);
    assert!(r.send.is_some());
    let outcome = session.tick(&Vec::new(), &Vec::new());
    assert!(outcome.became_disconnected);
    // Nothing is outstanding any more and nothing new goes out.
    let r = session.fast_tick(100, None);
    assert_eq!(r.send, None);
    assert!(!r.timeout);
}

#[test]
fn refresh_requests_both_dumps_again() {
    let mut session = connected_session();
    session.fast_tick(0, None);
    session.fast_tick(10, Some(&preset_dump(0x70, &[0u8; 208])));
    session.fast_tick(200, Some(&multi_dump(0x7F, &[0u8; 80])));
    session.request_refresh();
    let r = session.fast_tick(300, None);
    assert_eq!(r.send, Some(vec![0xF0, 0x02, 0x70, 0xF7]));
}

#[test]
fn a_capture_hands_out_the_next_accepted_dump() {
    let mut session = connected_session();
    session.fast_tick(0, None);
    session.fast_tick(10, Some(&preset_dump(0x70, &[0u8; 208])));
    session.fast_tick(200, Some(&multi_dump(0x7F, &[0u8; 80])));
    session.part_change(1);
    session.begin_preset_capture();
    let r = session.fast_tick(300, None);
    assert_eq!(r.send, Some(vec![0xF0, 0x02, 0x71, 0xF7]));
    let dump = preset_dump(0x71, &[0u8; 208]);
    let r = session.fast_tick(310, Some(&dump));
    // The captured frame is the received dump with its target normalised.
    let mut expected = dump.clone();
    expected[2] = 0x70;
    assert_eq!(r.capture, Some(expected));
    // The capture fires once.
    session.request_refresh();
    let r = session.fast_tick(500, None);
    assert!(r.send.is_some());
    let r = session.fast_tick(510, Some(&preset_dump(0x71, &[0u8; 208])));
    assert_eq!(r.capture, None);
}

#[test]
fn raw_dumps_are_readdressed_before_transmission() {
    let mut session = connected_session();
    session.part_change(3);
    let data = preset_dump(0x05, &[0u8; 208]);
    let send = session.load_raw_dump(&data).unwrap();
    assert_eq!(send[2], 0x73);
    assert_eq!(&send[3..], &data[3..]);
    let data = multi_dump(0x02, &[0u8; 80]);
    let send = session.load_raw_dump(&data).unwrap();
    assert_eq!(send[2], 0x7F);
}

#[test]
fn raw_dumps_of_the_wrong_shape_are_rejected() {
    let mut session = connected_session();
    assert_eq!(session.load_raw_dump(&vec![0xF0, 0x01, 0x00, 0xF7]), None);
    let mut short = preset_dump(0x70, &[0u8; 208]);
    short.pop();
    assert_eq!(session.load_raw_dump(&short), None);
    let mut disconnected = Session::new();
    assert_eq!(disconnected.load_raw_dump(&preset_dump(0x70, &[0u8; 208])), None);
}
