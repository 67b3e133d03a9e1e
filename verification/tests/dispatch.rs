use midi_surface::midi::{classify, Classification, MidiIncomingMessage, Section};
use midi_surface::panel::{
    handle_control_message, handle_main_message, handle_message, HandleMessageError, PanelAction,
};

fn message(status: u8, key: u8, velocity: u8) -> MidiIncomingMessage {
    MidiIncomingMessage { time: 7, data: [status, key, velocity] }
}

#[test]
fn release_is_ignored_in_every_section() {
    for status in 0..=255u8 {
        for key in [0u8, 19, 39, 104, 255] {
            assert_eq!(classify(&message(status, key, 0)), Classification::Ignored);
            assert_eq!(handle_message(message(status, key, 0)), Ok(None));
        }
    }
}

#[test]
fn press_is_classified_by_status_byte() {
    assert_eq!(
        classify(&message(176, 104, 127)),
        Classification::Classified { section: Section::Control, key: 104 }
    );
    assert_eq!(
        classify(&message(144, 11, 1)),
        Classification::Classified { section: Section::Main, key: 11 }
    );
    assert_eq!(
        classify(&message(128, 11, 64)),
        Classification::Classified { section: Section::Other, key: 11 }
    );
}

#[test]
fn control_row_bindings() {
    assert_eq!(
        handle_control_message(message(176, 104, 127)),
        Ok(Some(PanelAction::Nudge { by: 5, up: true }))
    );
    assert_eq!(
        handle_control_message(message(176, 105, 127)),
        Ok(Some(PanelAction::Nudge { by: 5, up: false }))
    );
    assert_eq!(handle_control_message(message(176, 106, 127)), Ok(Some(PanelAction::PreviousTrack)));
    assert_eq!(handle_control_message(message(176, 107, 127)), Ok(Some(PanelAction::NextTrack)));
}

#[test]
fn control_row_unbound_keys() {
    for key in [0u8, 103, 108, 111, 255] {
        assert_eq!(
            handle_control_message(message(176, key, 127)),
            Err(HandleMessageError::UnboundInput)
        );
    }
}

#[test]
fn volume_columns_set_ten_times_the_row_counted_from_one() {
    assert_eq!(handle_main_message(message(144, 11, 127)), Ok(Some(PanelAction::SetVolume(20))));
    assert_eq!(handle_main_message(message(144, 12, 127)), Ok(Some(PanelAction::SetVolume(20))));
    assert_eq!(handle_main_message(message(144, 1, 127)), Ok(Some(PanelAction::SetVolume(10))));
    assert_eq!(handle_main_message(message(144, 82, 127)), Ok(Some(PanelAction::SetVolume(90))));
    assert_eq!(handle_main_message(message(144, 91, 127)), Ok(Some(PanelAction::SetVolume(100))));
}

#[test]
fn volume_above_the_loudest_is_dropped() {
    assert_eq!(handle_main_message(message(144, 101, 127)), Ok(None));
    assert_eq!(handle_main_message(message(144, 252, 127)), Ok(None));
}

#[test]
fn side_column_bindings() {
    assert_eq!(handle_main_message(message(144, 39, 127)), Ok(Some(PanelAction::TogglePlayState)));
    assert_eq!(handle_main_message(message(144, 29, 127)), Ok(Some(PanelAction::SetVolume(0))));
    assert_eq!(handle_main_message(message(144, 19, 127)), Ok(Some(PanelAction::ToggleLoopState)));
}

#[test]
fn main_grid_unbound_keys() {
    for key in [0u8, 10, 13, 18, 20, 49, 88, 89, 250, 255] {
        assert_eq!(
            handle_main_message(message(144, key, 127)),
            Err(HandleMessageError::UnboundInput)
        );
    }
}

#[test]
fn handle_message_dispatches_by_section() {
    assert_eq!(handle_message(message(176, 107, 1)), Ok(Some(PanelAction::NextTrack)));
    assert_eq!(handle_message(message(144, 39, 1)), Ok(Some(PanelAction::TogglePlayState)));
    assert_eq!(handle_message(message(144, 107, 1)), Err(HandleMessageError::UnboundInput));
    assert_eq!(handle_message(message(176, 39, 1)), Err(HandleMessageError::UnboundInput));
}

#[test]
fn press_in_unknown_section_is_unbound() {
    assert_eq!(handle_message(message(0x80, 39, 127)), Err(HandleMessageError::UnboundInput));
    assert_eq!(handle_message(message(0x91, 39, 127)), Err(HandleMessageError::UnboundInput));
}
