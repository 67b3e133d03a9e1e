//! The loop that drives a pad: one attempt to receive per turn, a wait only
//! when nothing came, and one full frame per turn whatever happened.
//!
//! Receiving, waiting and sending are the caller's work. What to do next is
//! decided here.

use crate::automaton::{
    automaton_input, cell_color, input_of, Automaton, AutomatonInput, AutomatonKeys, Board,
};
use crate::midi::{Color, Colors, MidiControlMessage, MidiIncomingMessage};
use crate::panel::{handle_message, message_outcome, HandleMessageError, Outcome, PanelAction};
use crate::utils::DeviceProfile;
use vstd::prelude::*;

verus! {

/// Milliseconds that the media panel's loop waits after an empty receive.
pub const IDLE_INTERVAL_MS: u64 = 50;

/// Milliseconds that the life board's loop waits after an empty receive, so
/// that the board moves no faster than one step in that time.
pub const TICK_INTERVAL_MS: u64 = 100;

/// Where the loop stands within a turn.
#[derive(Debug, Clone, Copy, PartialEq, Eq, Structural)]
pub enum LoopPhase {
    Idle,
    Dispatch,
    Tick,
    Render,
    Quit,
}

/// What the loop learns in the phase it is leaving.
#[derive(Debug, Clone, Copy, PartialEq, Eq, Structural)]
pub enum LoopEvent {
    /// The receive attempt yielded a message.
    InputPresent,
    /// The receive attempt yielded nothing, and the loop has waited.
    InputAbsent,
    /// The message was handled; `quit` tells whether it was the quit input.
    Dispatched { quit: bool },
    /// The behavior was given its time.
    Ticked,
    /// The frame was sent.
    Rendered,
}

/// The phase before the frame: a tick for a running behavior, the frame
/// itself otherwise.
pub open spec fn before_render(running: bool) -> LoopPhase {
    if running {
        LoopPhase::Tick
    } else {
        LoopPhase::Render
    }
}

/// The phase that follows, or `None` where the event cannot happen in the
/// phase. Nothing follows `Quit`.
pub open spec fn successor(phase: LoopPhase, event: LoopEvent, running: bool) -> Option<
    LoopPhase,
> {
    match (phase, event) {
        (LoopPhase::Idle, LoopEvent::InputPresent) => Some(LoopPhase::Dispatch),
        (LoopPhase::Idle, LoopEvent::InputAbsent) => Some(before_render(running)),
        (LoopPhase::Dispatch, LoopEvent::Dispatched { quit }) => if quit {
            Some(LoopPhase::Quit)
        } else {
            Some(before_render(running))
        },
        (LoopPhase::Tick, LoopEvent::Ticked) => Some(LoopPhase::Render),
        (LoopPhase::Render, LoopEvent::Rendered) => Some(LoopPhase::Idle),
        _ => None,
    }
}

/// Moves the loop on by one event.
pub fn advance(phase: LoopPhase, event: LoopEvent, running: bool) -> (next: Option<LoopPhase>)
    ensures
        next == successor(phase, event, running),
{
    let onward = if running {
        LoopPhase::Tick
    } else {
        LoopPhase::Render
    };
    match phase {
        LoopPhase::Idle => match event {
            LoopEvent::InputPresent => Some(LoopPhase::Dispatch),
            LoopEvent::InputAbsent => Some(onward),
            _ => None,
        },
        LoopPhase::Dispatch => match event {
            LoopEvent::Dispatched { quit } => if quit {
                Some(LoopPhase::Quit)
            } else {
                Some(onward)
            },
            _ => None,
        },
        LoopPhase::Tick => match event {
            LoopEvent::Ticked => Some(LoopPhase::Render),
            _ => None,
        },
        LoopPhase::Render => match event {
            LoopEvent::Rendered => Some(LoopPhase::Idle),
            _ => None,
        },
        LoopPhase::Quit => None,
    }
}

/// The loop ends only on the quit input, and once ended it stays ended.
pub proof fn lemma_quit_only_on_request(phase: LoopPhase, event: LoopEvent, running: bool)
    ensures
        successor(phase, event, running) == Some(LoopPhase::Quit) <==> phase == LoopPhase::Dispatch
            && event == (LoopEvent::Dispatched { quit: true }),
        successor(LoopPhase::Quit, event, running) is None,
{
}

/// The loop comes back to idle only from a frame, and a tick happens only for
/// a running behavior and is followed by the frame.
pub proof fn lemma_frame_every_turn(phase: LoopPhase, event: LoopEvent, running: bool)
    ensures
        successor(phase, event, running) == Some(LoopPhase::Idle) <==> phase == LoopPhase::Render
            && event == LoopEvent::Rendered,
        successor(phase, event, running) == Some(LoopPhase::Tick) ==> running,
        successor(LoopPhase::Tick, LoopEvent::Ticked, running) == Some(LoopPhase::Render),
{
}

/// Milliseconds to wait after a receive attempt: the idle interval where it
/// yielded nothing, none where it yielded a message.
pub open spec fn wait_after(received: bool, idle_interval_ms: u64) -> u64 {
    if received {
        0
    } else {
        idle_interval_ms
    }
}

/// How long the loop waits before its next receive attempt.
pub fn idle_wait(received: bool, idle_interval_ms: u64) -> (wait_ms: u64)
    ensures
        wait_ms == wait_after(received, idle_interval_ms),
        !received ==> wait_ms >= idle_interval_ms,
        received ==> wait_ms == 0,
{
    if received {
        0
    } else {
        idle_interval_ms
    }
}

/// What one turn of the media panel's loop does before it paints.
#[derive(Debug, Clone, Copy)]
pub struct Turn {
    /// What handling the message came to; nothing to do where none came.
    pub outcome: Outcome,
    /// Milliseconds to wait before painting.
    pub wait_ms: u64,
}

/// One turn of the media panel's loop: a message is handled at once and
/// nothing waits; without a message the loop waits the idle interval.
pub fn panel_turn(received: Option<MidiIncomingMessage>) -> (turn: Turn)
    ensures
        match received {
            Some(message) => {
                &&& turn.outcome == message_outcome(message.data@)
                &&& turn.wait_ms == 0
            },
            None => {
                &&& turn.outcome == Ok::<Option<PanelAction>, HandleMessageError>(None)
                &&& turn.wait_ms == IDLE_INTERVAL_MS
            },
        },
{
    match received {
        Some(message) => Turn { outcome: handle_message(message), wait_ms: idle_wait(true, IDLE_INTERVAL_MS) },
        None => Turn { outcome: Ok(None), wait_ms: idle_wait(false, IDLE_INTERVAL_MS) },
    }
}

/// The LED command of one cell: off for the colour `Off`, lit otherwise.
pub open spec fn cell_led(key: u8, color: Color) -> MidiControlMessage {
    if color.color == Colors::Off {
        MidiControlMessage::LED_OFF(key)
    } else {
        MidiControlMessage::LED_ON(key, color)
    }
}

/// The commands of a full frame: one per cell, row by row, each at the key
/// that the pad's numbering gives the cell. Place `i` of the frame is the
/// cell at column `i % width`, row `i / width`.
pub fn grid_frame(profile: &DeviceProfile, colors: &Vec<Color>) -> (leds: Vec<MidiControlMessage>)
    requires
        profile.wf(),
        colors@.len() == profile.width * profile.height,
    ensures
        leds@.len() == colors@.len(),
        forall|i: int|
            0 <= i < leds@.len() ==> #[trigger] leds@[i] == cell_led(
                profile.key_of(i % profile.width as int, i / profile.width as int) as u8,
                colors@[i],
            ),
{
    let width: u8 = profile.width;
    let height: u8 = profile.height;
    let mut leds: Vec<MidiControlMessage> = Vec::new();
    let mut y: u8 = 0;
    while y < height
        invariant
            profile.wf(),
            width == profile.width,
            height == profile.height,
            colors@.len() == width * height,
            y <= height,
            leds@.len() == y * width,
            forall|i: int|
                0 <= i < leds@.len() ==> #[trigger] leds@[i] == cell_led(
                    profile.key_of(i % width as int, i / width as int) as u8,
                    colors@[i],
                ),
        decreases height - y,
    {
        let mut x: u8 = 0;
        while x < width
            invariant
                profile.wf(),
                width == profile.width,
                height == profile.height,
                colors@.len() == width * height,
                y < height,
                x <= width,
                leds@.len() == y * width + x,
                forall|i: int|
                    0 <= i < leds@.len() ==> #[trigger] leds@[i] == cell_led(
                        profile.key_of(i % width as int, i / width as int) as u8,
                        colors@[i],
                    ),
            decreases width - x,
        {
            proof {
                crate::automaton::lemma_cell_index(
                    width as int,
                    height as int,
                    x as int,
                    y as int,
                );
            }
            let index: usize = leds.len();
            let key: u8 = profile.to_device_key(x, y);
            let color: Color = colors[index];
            let led = match color.color {
                Colors::Off => MidiControlMessage::LED_OFF(key),
                _ => MidiControlMessage::LED_ON(key, color),
            };
            leds.push(led);
            x += 1;
        }
        assert((y + 1) * width == y * width + width) by (nonlinear_arith);
        y += 1;
    }
    assert(leds@.len() == colors@.len()) by (nonlinear_arith)
        requires
            leds@.len() == y * width,
            y == height,
            colors@.len() == width * height,
    ;
    leds
}

/// What a message asks of the board, if one came.
pub open spec fn board_request(
    profile: DeviceProfile,
    keys: AutomatonKeys,
    received: Option<MidiIncomingMessage>,
) -> Result<Option<AutomatonInput>, HandleMessageError> {
    match received {
        Some(message) => input_of(profile, keys, message.data@),
        None => Ok(None),
    }
}

/// The board after a turn that did not end the loop: the input applied, if
/// there was one, then the board given its time.
pub open spec fn board_after_turn(
    board: Board,
    request: Result<Option<AutomatonInput>, HandleMessageError>,
) -> Board {
    match request {
        Ok(Some(input)) => Automaton::after(board, input).ticked(),
        _ => board.ticked(),
    }
}

/// Whether `frame` shows every cell of the board at its key on the pad.
pub open spec fn shows(
    frame: Seq<MidiControlMessage>,
    profile: DeviceProfile,
    board: Board,
) -> bool {
    &&& frame.len() == board.cells.len()
    &&& forall|i: int|
        0 <= i < frame.len() ==> #[trigger] frame[i] == cell_led(
            profile.key_of(i % profile.width as int, i / profile.width as int) as u8,
            cell_color(board.cells[i]),
        )
}

/// What one turn of the life board's loop comes to.
#[derive(Debug)]
pub struct BoardTurn {
    /// What the message asked for; nothing where none came.
    pub outcome: Result<Option<AutomatonInput>, HandleMessageError>,
    /// Whether the loop ends with this turn.
    pub quit: bool,
    /// Milliseconds to wait before the next receive attempt.
    pub wait_ms: u64,
    /// The LED commands of the full frame; none on the turn that quits.
    pub frame: Vec<MidiControlMessage>,
}

/// One turn of the life board's loop. The input of a message is applied at
/// once; a running board then moves one step; the full frame is painted,
/// whatever changed. Only the quit input ends the loop, and on that turn the
/// board stays as it is and nothing is painted. The loop waits only after a
/// receive attempt that yielded nothing.
pub fn board_turn(
    board: &mut Automaton,
    profile: &DeviceProfile,
    keys: &AutomatonKeys,
    received: Option<MidiIncomingMessage>,
) -> (turn: BoardTurn)
    requires
        old(board).wf(),
        profile.wf(),
        profile.width == old(board)@.width,
        profile.height == old(board)@.height,
    ensures
        final(board).wf(),
        turn.outcome == board_request(*profile, *keys, received),
        turn.quit == (turn.outcome == Ok::<Option<AutomatonInput>, HandleMessageError>(
            Some(AutomatonInput::Quit),
        )),
        turn.wait_ms == wait_after(received is Some, TICK_INTERVAL_MS),
        turn.quit ==> final(board)@ == old(board)@ && turn.frame@.len() == 0,
        !turn.quit ==> final(board)@ == board_after_turn(old(board)@, turn.outcome) && shows(
            turn.frame@,
            *profile,
            final(board)@,
        ),
{
    let wait_ms: u64 = idle_wait(received.is_some(), TICK_INTERVAL_MS);
    let outcome = match received {
        Some(message) => automaton_input(profile, keys, &message),
        None => Ok(None),
    };
    let quit: bool = match outcome {
        Ok(Some(input)) => board.apply(input),
        _ => false,
    };
    if quit {
        return BoardTurn { outcome, quit, wait_ms, frame: Vec::new() };
    }
    board.tick();
    let colors = board.render();
    let frame = grid_frame(profile, &colors);
    BoardTurn { outcome, quit, wait_ms, frame }
}

} // verus!
