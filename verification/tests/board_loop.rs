use midi_surface::automaton::{Automaton, AutomatonInput, AutomatonKeys};
use midi_surface::event_loop::board_turn;
use midi_surface::midi::{Brightness, Color, Colors, MidiControlMessage, MidiIncomingMessage};
use midi_surface::panel::HandleMessageError;
use midi_surface::utils::{DeviceProfile, Numbering};

const KEYS: AutomatonKeys = AutomatonKeys { start: 104, quit: 111 };

fn press(status: u8, key: u8) -> Option<MidiIncomingMessage> {
    Some(MidiIncomingMessage { time: 0, data: [status, key, 127] })
}

fn lit(frame: &[MidiControlMessage]) -> Vec<u8> {
    let alive = Color::new(Colors::Green, Brightness::High);
    frame
        .iter()
        .filter_map(|led| match led {
            MidiControlMessage::LED_ON(key, color) if *color == alive => Some(*key),
            MidiControlMessage::LED_OFF(_) => None,
            other => panic!("{:?}", other),
        })
        .collect()
}

#[test]
fn idle_board_turn_waits_and_paints_every_cell() {
    let profile = DeviceProfile::new(3, 3, Numbering::SideColumn).unwrap();
    let mut board = Automaton::new(3, 3).unwrap();
    let turn = board_turn(&mut board, &profile, &KEYS, None);
    assert_eq!(turn.outcome, Ok(None));
    assert!(!turn.quit);
    assert_eq!(turn.wait_ms, 100);
    let keys: Vec<u8> = [1, 2, 3, 11, 12, 13, 21, 22, 23].to_vec();
    let expected: Vec<MidiControlMessage> =
        keys.iter().map(|k| MidiControlMessage::LED_OFF(*k)).collect();
    assert_eq!(turn.frame, expected);
}

#[test]
fn pressed_pad_lights_its_cell_without_a_wait() {
    let profile = DeviceProfile::new(8, 8, Numbering::SideColumn).unwrap();
    let mut board = Automaton::new(8, 8).unwrap();
    let turn = board_turn(&mut board, &profile, &KEYS, press(144, 33));
    assert_eq!(turn.outcome, Ok(Some(AutomatonInput::Toggle { x: 2, y: 3 })));
    assert_eq!(turn.wait_ms, 0);
    assert_eq!(turn.frame.len(), 64);
    assert_eq!(lit(&turn.frame), vec![33]);
    assert!(board.is_alive(2, 3));
    let again = board_turn(&mut board, &profile, &KEYS, press(144, 33));
    assert_eq!(lit(&again.frame), Vec::<u8>::new());
    assert!(!board.is_alive(2, 3));
}

#[test]
fn started_board_steps_once_each_turn() {
    let profile = DeviceProfile::new(3, 3, Numbering::FullPad { base: 0 }).unwrap();
    let mut board = Automaton::new(3, 3).unwrap();
    for key in [4u8, 5, 6] {
        let turn = board_turn(&mut board, &profile, &KEYS, press(144, key));
        assert!(!turn.quit);
    }
    let still = board_turn(&mut board, &profile, &KEYS, None);
    assert_eq!(lit(&still.frame), vec![4, 5, 6]);
    let start = board_turn(&mut board, &profile, &KEYS, press(176, 104));
    assert_eq!(start.outcome, Ok(Some(AutomatonInput::Start)));
    assert_eq!(lit(&start.frame), vec![1, 5, 9]);
    let next = board_turn(&mut board, &profile, &KEYS, None);
    assert_eq!(lit(&next.frame), vec![4, 5, 6]);
    assert_eq!(next.wait_ms, 100);
}

#[test]
fn unbound_press_changes_nothing_and_the_loop_goes_on() {
    let profile = DeviceProfile::new(8, 8, Numbering::SideColumn).unwrap();
    let mut board = Automaton::new(8, 8).unwrap();
    let turn = board_turn(&mut board, &profile, &KEYS, press(144, 19));
    assert_eq!(turn.outcome, Err(HandleMessageError::UnboundInput));
    assert!(!turn.quit);
    assert_eq!(turn.wait_ms, 0);
    assert_eq!(lit(&turn.frame), Vec::<u8>::new());
    assert_eq!(turn.frame.len(), 64);
}

#[test]
fn quit_ends_the_loop_and_paints_nothing() {
    let profile = DeviceProfile::new(8, 8, Numbering::SideColumn).unwrap();
    let mut board = Automaton::new(8, 8).unwrap();
    board.receive(1, 1);
    board.start();
    let turn = board_turn(&mut board, &profile, &KEYS, press(176, 111));
    assert_eq!(turn.outcome, Ok(Some(AutomatonInput::Quit)));
    assert!(turn.quit);
    assert!(turn.frame.is_empty());
    assert!(board.is_alive(1, 1));
}

#[test]
fn release_is_no_input_but_counts_as_received() {
    let profile = DeviceProfile::new(8, 8, Numbering::SideColumn).unwrap();
    let mut board = Automaton::new(8, 8).unwrap();
    let release = Some(MidiIncomingMessage { time: 0, data: [176, 111, 0] });
    let turn = board_turn(&mut board, &profile, &KEYS, release);
    assert_eq!(turn.outcome, Ok(None));
    assert!(!turn.quit);
    assert_eq!(turn.wait_ms, 0);
}
