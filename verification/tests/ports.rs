use midi_surface::midi::{find_port, select_ports, ConnectionError, MIDI_NAME};

fn names(list: &[Option<&str>]) -> Vec<Option<String>> {
    list.iter().map(|n| n.map(|s| s.to_string())).collect()
}

#[test]
fn find_port_takes_the_first_exact_match() {
    let ports = names(&[Some("Midi Through"), None, Some("Launchpad"), Some("Launchpad")]);
    assert_eq!(find_port(&ports, "Launchpad"), Some(2));
}

#[test]
fn find_port_wants_the_whole_name() {
    let ports = names(&[Some("Launchpad MK2"), Some("launchpad"), Some("")]);
    assert_eq!(find_port(&ports, "Launchpad"), None);
    assert_eq!(find_port(&ports, ""), Some(2));
}

#[test]
fn find_port_in_no_ports() {
    assert_eq!(find_port(&names(&[]), MIDI_NAME), None);
    assert_eq!(find_port(&names(&[None, None]), MIDI_NAME), None);
}

#[test]
fn select_ports_needs_both_directions() {
    let with = names(&[Some("other"), Some(MIDI_NAME)]);
    let without = names(&[Some("other")]);
    assert_eq!(select_ports(&with, &with, MIDI_NAME), Ok((1, 1)));
    assert_eq!(select_ports(&without, &with, MIDI_NAME), Err(ConnectionError::NotFound));
    assert_eq!(select_ports(&with, &without, MIDI_NAME), Err(ConnectionError::NotFound));
    assert_eq!(select_ports(&without, &without, MIDI_NAME), Err(ConnectionError::NotFound));
}

#[test]
fn select_ports_picks_each_first_match() {
    let inputs = names(&[Some("pad"), Some("x")]);
    let outputs = names(&[None, Some("x"), Some("pad"), Some("pad")]);
    assert_eq!(select_ports(&inputs, &outputs, "pad"), Ok((0, 2)));
}
