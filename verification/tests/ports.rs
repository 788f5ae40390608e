use tooro_core::ports::cleanup_port_name;
use tooro_core::ports::find_port_by_name;
use tooro_core::ports::is_device_port;
use tooro_core::ports::is_merge_port;
use tooro_core::ports::str_contains;

#[test]
fn substring_search_finds_patterns() {
    assert!(str_contains("Tooro MIDI 1", "Tooro"));
    assert!(str_contains("my tooro box", "tooro"));
    assert!(!str_contains("Midi Through Port-0", "Tooro"));
    assert!(str_contains("abc", ""));
    assert!(!str_contains("ab", "abc"));
}

#[test]
fn device_ports_are_matched_by_their_name_token() {
    assert!(is_device_port("Tooro MIDI 1"));
    assert!(is_device_port("Tooro MIDI 1 28:0"));
    assert!(!is_device_port("tooro lowercase"));
    assert!(!is_device_port("Midi Through Port-0"));
}

#[test]
fn merge_candidates_exclude_the_device_in_both_spellings() {
    assert!(is_merge_port("Midi Through Port-0"));
    assert!(is_merge_port("Arturia KeyStep 32"));
    assert!(!is_merge_port("Tooro MIDI 1"));
    assert!(!is_merge_port("my tooro box"));
}

#[test]
fn client_prefixes_are_stripped_when_the_remainder_repeats_them() {
    assert_eq!(
        cleanup_port_name("Tooro:Tooro MIDI 1 28:0".to_string()),
        "Tooro MIDI 1 28:0".to_string()
    );
    assert_eq!(cleanup_port_name("a:a".to_string()), "a".to_string());
}

#[test]
fn other_names_are_left_untouched() {
    assert_eq!(cleanup_port_name("Tooro MIDI 1".to_string()), "Tooro MIDI 1".to_string());
    assert_eq!(cleanup_port_name("Client:Other".to_string()), "Client:Other".to_string());
    assert_eq!(cleanup_port_name("abc:ab".to_string()), "abc:ab".to_string());
    assert_eq!(cleanup_port_name("".to_string()), "".to_string());
}

#[test]
fn ports_are_found_by_their_cleaned_name() {
    let names = vec![
        "Midi Through:Midi Through Port-0 14:0".to_string(),
        "KeyStep:KeyStep 32 24:0".to_string(),
    ];
    let target = "KeyStep 32 24:0".to_string();
    assert_eq!(find_port_by_name(&names, &target), Some(1));
    let absent = "Somewhere else".to_string();
    assert_eq!(find_port_by_name(&names, &absent), None);
}
