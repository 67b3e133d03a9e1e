//! The media panel: which request a pressed key stands for, and the LEDs
//! that show the volume, the play state and the loop mode.

use crate::midi::{
    brightness_tier, classification_of, classify, Brightness, Classification, Color, Colors,
    MidiControlMessage, MidiIncomingMessage, Section,
};
use crate::services::track::{LoopState, PlayState};
use crate::services::volume::MAX_VOLUME;
use crate::utils::{coord_to_key, key_to_coord, side_column_coord, side_column_key};
use vstd::prelude::*;

verus! {

pub const NUDGE_UP_NOTE: u8 = 104;

pub const NUDGE_DOWN_NOTE: u8 = 105;

pub const PREVIOUS_TRACK_NOTE: u8 = 106;

pub const NEXT_TRACK_NOTE: u8 = 107;

pub const STOP_NOTE: u8 = 39;

pub const MUTE_NOTE: u8 = 29;

pub const LOOP_NOTE: u8 = 19;

pub const VOLUME_COLUMN_LEFT: u8 = 0;

pub const VOLUME_COLUMN_RIGHT: u8 = 1;

/// Percent by which one press of a nudge key moves the volume.
pub const NUDGE_STEP: u8 = 5;

/// Rows of the two volume columns that a frame paints.
pub const BAR_ROWS: u8 = 9;

/// Why a message led to nothing.
#[derive(Debug, Clone, Copy, PartialEq, Eq, Structural)]
pub enum HandleMessageError {
    /// The pressed key has no binding.
    UnboundInput,
}

/// A request to the mixer or the media player that a pressed key stands for.
#[derive(Debug, Clone, Copy, PartialEq, Eq, Structural)]
pub enum PanelAction {
    Nudge { by: u8, up: bool },
    SetVolume(u8),
    TogglePlayState,
    ToggleLoopState,
    PreviousTrack,
    NextTrack,
}

/// What handling a message comes to: a request, nothing to do, or a key that
/// nothing is bound to.
pub type Outcome = Result<Option<PanelAction>, HandleMessageError>;

/// What the services report for one frame.
#[derive(Debug, Clone, Copy)]
pub struct PanelStatus {
    pub volume: (u8, u8),
    pub play_state: PlayState,
    pub loop_state: LoopState,
}

/// What a pressed key of the control row stands for.
pub open spec fn control_outcome(key: u8) -> Outcome {
    if key == NUDGE_UP_NOTE {
        Ok(Some(PanelAction::Nudge { by: NUDGE_STEP, up: true }))
    } else if key == NUDGE_DOWN_NOTE {
        Ok(Some(PanelAction::Nudge { by: NUDGE_STEP, up: false }))
    } else if key == PREVIOUS_TRACK_NOTE {
        Ok(Some(PanelAction::PreviousTrack))
    } else if key == NEXT_TRACK_NOTE {
        Ok(Some(PanelAction::NextTrack))
    } else {
        Err(HandleMessageError::UnboundInput)
    }
}

/// Whether a key of the main grid lies in one of the two volume columns.
pub open spec fn in_volume_column(key: u8) -> bool {
    key % 10 != 0 && (side_column_coord(key as int).0 == VOLUME_COLUMN_LEFT || side_column_coord(
        key as int,
    ).0 == VOLUME_COLUMN_RIGHT)
}

/// The volume that a key of a volume column asks for: ten times its row,
/// counted from 1.
pub open spec fn volume_of_row(key: u8) -> int {
    (side_column_coord(key as int).1 + 1) * 10
}

/// What a pressed key of the main grid stands for. A key of a volume column
/// sets the volume by its row, and nothing where that would exceed the
/// loudest volume.
pub open spec fn main_outcome(key: u8) -> Outcome {
    if in_volume_column(key) {
        if volume_of_row(key) <= MAX_VOLUME {
            Ok(Some(PanelAction::SetVolume(volume_of_row(key) as u8)))
        } else {
            Ok(None)
        }
    } else if key == STOP_NOTE {
        Ok(Some(PanelAction::TogglePlayState))
    } else if key == MUTE_NOTE {
        Ok(Some(PanelAction::SetVolume(0)))
    } else if key == LOOP_NOTE {
        Ok(Some(PanelAction::ToggleLoopState))
    } else {
        Err(HandleMessageError::UnboundInput)
    }
}

/// What a message comes to: nothing for a release, the binding of its key in
/// its zone for a press, and an unbound input for a press in no known zone.
pub open spec fn message_outcome(data: Seq<u8>) -> Outcome {
    match classification_of(data) {
        Classification::Ignored => Ok(None),
        Classification::Classified { section: Section::Control, key } => control_outcome(key),
        Classification::Classified { section: Section::Main, key } => main_outcome(key),
        Classification::Classified { section: Section::Other, key } => Err(
            HandleMessageError::UnboundInput,
        ),
    }
}

/// The request that a pressed key of the control row stands for.
pub fn handle_control_message(message: MidiIncomingMessage) -> (outcome: Outcome)
    ensures
        outcome == control_outcome(message.data[1]),
{
    let key: u8 = message.data[1];
    if key == NUDGE_UP_NOTE {
        Ok(Some(PanelAction::Nudge { by: NUDGE_STEP, up: true }))
    } else if key == NUDGE_DOWN_NOTE {
        Ok(Some(PanelAction::Nudge { by: NUDGE_STEP, up: false }))
    } else if key == PREVIOUS_TRACK_NOTE {
        Ok(Some(PanelAction::PreviousTrack))
    } else if key == NEXT_TRACK_NOTE {
        Ok(Some(PanelAction::NextTrack))
    } else {
        Err(HandleMessageError::UnboundInput)
    }
}

/// The request that a pressed key of the main grid stands for.
pub fn handle_main_message(message: MidiIncomingMessage) -> (outcome: Outcome)
    ensures
        outcome == main_outcome(message.data[1]),
{
    let key: u8 = message.data[1];
    if key % 10 != 0 {
        let (x, y) = key_to_coord(key);
        if x == VOLUME_COLUMN_LEFT || x == VOLUME_COLUMN_RIGHT {
            let level: u16 = (y as u16 + 1) * 10;
            if level > MAX_VOLUME as u16 {
                return Ok(None);
            }
            return Ok(Some(PanelAction::SetVolume(level as u8)));
        }
    }
    if key == STOP_NOTE {
        Ok(Some(PanelAction::TogglePlayState))
    } else if key == MUTE_NOTE {
        Ok(Some(PanelAction::SetVolume(0)))
    } else if key == LOOP_NOTE {
        Ok(Some(PanelAction::ToggleLoopState))
    } else {
        Err(HandleMessageError::UnboundInput)
    }
}

/// The request that a message stands for. A release stands for none and is
/// no error.
pub fn handle_message(message: MidiIncomingMessage) -> (outcome: Outcome)
    ensures
        outcome == message_outcome(message.data@),
        message.data[2] == 0 ==> outcome == Ok::<Option<PanelAction>, HandleMessageError>(None),
{
    match classify(&message) {
        Classification::Ignored => Ok(None),
        Classification::Classified { section: Section::Control, key: _ } => handle_control_message(
            message,
        ),
        Classification::Classified { section: Section::Main, key: _ } => handle_main_message(
            message,
        ),
        Classification::Classified { section: Section::Other, key: _ } => Err(
            HandleMessageError::UnboundInput,
        ),
    }
}

/// A release asks for nothing and is no error, whatever its zone and key.
pub proof fn lemma_release_is_filtered(data: Seq<u8>)
    requires
        data.len() == 3,
        data[2] == 0,
    ensures
        classification_of(data) == Classification::Ignored,
        message_outcome(data) == Ok::<Option<PanelAction>, HandleMessageError>(None),
{
}

/// The LED of one cell of a volume column: green up to the tenth of the
/// volume, brighter with the row, and off above.
pub open spec fn bar_led(volume: u8, column: u8, row: u8) -> MidiControlMessage {
    let key = side_column_key(column as int, row as int) as u8;
    if row < volume / 10 {
        MidiControlMessage::LED_ON(
            key,
            Color { color: Colors::Green, brightness: brightness_tier(row) },
        )
    } else {
        MidiControlMessage::LED_OFF(key)
    }
}

/// The LEDs of both volume columns, row by row from the bottom, left before
/// right. Both columns show the left channel.
pub open spec fn volume_bar(volume: u8) -> Seq<MidiControlMessage> {
    Seq::new(
        2 * BAR_ROWS as nat,
        |i: int|
            bar_led(
                volume,
                if i % 2 == 0 {
                    VOLUME_COLUMN_LEFT
                } else {
                    VOLUME_COLUMN_RIGHT
                },
                (i / 2) as u8,
            ),
    )
}

/// Green while playing, red while stopped.
pub open spec fn play_color(play_state: PlayState) -> Color {
    match play_state {
        PlayState::Playing => Color { color: Colors::Green, brightness: Brightness::High },
        PlayState::Stopped => Color { color: Colors::Red, brightness: Brightness::High },
    }
}

/// Green, brighter with the volume.
pub open spec fn mute_color(volume: u8) -> Color {
    Color { color: Colors::Green, brightness: brightness_tier(volume / 10) }
}

/// Red without a loop, purple for the playlist, green for the track.
pub open spec fn loop_color(loop_state: LoopState) -> Color {
    match loop_state {
        LoopState::NoLoop => Color { color: Colors::Red, brightness: Brightness::High },
        LoopState::Playlist => Color { color: Colors::Purple, brightness: Brightness::High },
        LoopState::Track => Color { color: Colors::Green, brightness: Brightness::High },
    }
}

/// The seven indicator lights: play, mute and loop on the grid's side column,
/// then the four keys of the control row.
pub open spec fn control_leds(
    play_state: PlayState,
    volume: u8,
    loop_state: LoopState,
) -> Seq<MidiControlMessage> {
    seq![
        MidiControlMessage::LED_ON(STOP_NOTE, play_color(play_state)),
        MidiControlMessage::LED_ON(MUTE_NOTE, mute_color(volume)),
        MidiControlMessage::LED_ON(LOOP_NOTE, loop_color(loop_state)),
        MidiControlMessage::CONTROL_LED_ON(
            NUDGE_UP_NOTE,
            Color { color: Colors::Red, brightness: Brightness::High },
        ),
        MidiControlMessage::CONTROL_LED_ON(
            NUDGE_DOWN_NOTE,
            Color { color: Colors::Red, brightness: Brightness::Low },
        ),
        MidiControlMessage::CONTROL_LED_ON(
            PREVIOUS_TRACK_NOTE,
            Color { color: Colors::Blue, brightness: Brightness::High },
        ),
        MidiControlMessage::CONTROL_LED_ON(
            NEXT_TRACK_NOTE,
            Color { color: Colors::Blue, brightness: Brightness::Low },
        ),
    ]
}

/// The LED commands of the two volume columns for a volume reading.
pub fn paint_volume(volume: (u8, u8), _delta_t: u128) -> (leds: Vec<MidiControlMessage>)
    ensures
        leds@ == volume_bar(volume.0),
{
    let (left, _) = volume;
    let l_val: u8 = left / 10;
    let mut leds: Vec<MidiControlMessage> = Vec::new();
    let mut y: u8 = 0;
    while y < BAR_ROWS
        invariant
            y <= BAR_ROWS,
            l_val == left / 10,
            leds@.len() == 2 * y,
            forall|i: int| 0 <= i < 2 * y ==> leds@[i] == volume_bar(left)[i],
        decreases BAR_ROWS - y,
    {
        if y < l_val {
            leds.push(
                MidiControlMessage::LED_ON(
                    coord_to_key(VOLUME_COLUMN_LEFT, y),
                    Color::new(Colors::Green, Brightness::from(y)),
                ),
            );
            leds.push(
                MidiControlMessage::LED_ON(
                    coord_to_key(VOLUME_COLUMN_RIGHT, y),
                    Color::new(Colors::Green, Brightness::from(y)),
                ),
            );
        } else {
            leds.push(MidiControlMessage::LED_OFF(coord_to_key(VOLUME_COLUMN_LEFT, y)));
            leds.push(MidiControlMessage::LED_OFF(coord_to_key(VOLUME_COLUMN_RIGHT, y)));
        }
        y += 1;
    }
    assert(leds@ =~= volume_bar(left));
    leds
}

/// The LED commands of the indicator lights for what the services report.
pub fn paint_control_buttons(
    play_state: PlayState,
    volume: (u8, u8),
    loop_state: LoopState,
    _delta_t: u128,
) -> (leds: Vec<MidiControlMessage>)
    ensures
        leds@ == control_leds(play_state, volume.0, loop_state),
{
    let play_state_color = match play_state {
        PlayState::Playing => Color::new(Colors::Green, Brightness::High),
        PlayState::Stopped => Color::new(Colors::Red, Brightness::High),
    };

    let (volume, _) = volume;
    let mute_state_color = Color::new(Colors::Green, Brightness::from(volume / 10));

    let loop_state_color = match loop_state {
        LoopState::NoLoop => Color::new(Colors::Red, Brightness::High),
        LoopState::Playlist => Color::new(Colors::Purple, Brightness::High),
        LoopState::Track => Color::new(Colors::Green, Brightness::High),
    };

    let mut leds: Vec<MidiControlMessage> = Vec::new();
    leds.push(MidiControlMessage::LED_ON(STOP_NOTE, play_state_color));
    leds.push(MidiControlMessage::LED_ON(MUTE_NOTE, mute_state_color));
    leds.push(MidiControlMessage::LED_ON(LOOP_NOTE, loop_state_color));

    leds.push(
        MidiControlMessage::CONTROL_LED_ON(
            NUDGE_UP_NOTE,
            Color::new(Colors::Red, Brightness::High),
        ),
    );
    leds.push(
        MidiControlMessage::CONTROL_LED_ON(
            NUDGE_DOWN_NOTE,
            Color::new(Colors::Red, Brightness::Low),
        ),
    );
    leds.push(
        MidiControlMessage::CONTROL_LED_ON(
            PREVIOUS_TRACK_NOTE,
            Color::new(Colors::Blue, Brightness::High),
        ),
    );
    leds.push(
        MidiControlMessage::CONTROL_LED_ON(
            NEXT_TRACK_NOTE,
            Color::new(Colors::Blue, Brightness::Low),
        ),
    );
    assert(leds@ =~= control_leds(play_state, volume, loop_state));
    leds
}

/// One frame: every LED of the volume columns, then every indicator light,
/// whatever the frame before showed.
pub fn paint(status: &PanelStatus, delta_t: u128) -> (leds: Vec<MidiControlMessage>)
    ensures
        leds@ == volume_bar(status.volume.0) + control_leds(
            status.play_state,
            status.volume.0,
            status.loop_state,
        ),
{
    let mut leds = paint_volume(status.volume, delta_t);
    let mut buttons = paint_control_buttons(
        status.play_state,
        status.volume,
        status.loop_state,
        delta_t,
    );
    leds.append(&mut buttons);
    leds
}

} // verus!
