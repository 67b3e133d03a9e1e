//! The media player: its play and loop reports, and the requests it takes.

use crate::services::Invocation;
use crate::text::{chars_of, contains_line, has_line, range_equals, trim_end, trim_end_matches};
use vstd::prelude::*;
use vstd::std_specs::convert::FromSpecImpl;

verus! {

/// The media player's command-line tool.
pub const PLAYER: &'static str = "playerctl";

/// Flag that addresses every player at once.
pub const ALL_PLAYERS: &'static str = "-a";

/// Whether any player is playing.
#[derive(Debug, Clone, Copy, PartialEq, Eq, Structural)]
pub enum PlayState {
    Playing,
    Stopped,
}

const PLAYING_STATUS: &'static str = "Playing";

/// What the player repeats.
#[derive(Debug, Clone, Copy, PartialEq, Eq, Structural)]
pub enum LoopState {
    NoLoop,
    Track,
    Playlist,
}

const NONE_STATUS: &'static str = "None";

const TRACK_STATUS: &'static str = "Track";

const PLAYLIST_STATUS: &'static str = "Playlist";

impl LoopState {
    /// The word by which the player knows the mode.
    pub open spec fn name(self) -> Seq<char> {
        match self {
            LoopState::NoLoop => "None"@,
            LoopState::Playlist => "Playlist"@,
            LoopState::Track => "Track"@,
        }
    }

    /// The mode that follows in the cycle: none, playlist, track, none.
    pub open spec fn following(self) -> LoopState {
        match self {
            LoopState::NoLoop => LoopState::Playlist,
            LoopState::Playlist => LoopState::Track,
            LoopState::Track => LoopState::NoLoop,
        }
    }

    /// The mode that a toggle selects after this one.
    pub fn next(self) -> (next: LoopState)
        ensures
            next == self.following(),
    {
        match self {
            LoopState::NoLoop => LoopState::Playlist,
            LoopState::Playlist => LoopState::Track,
            LoopState::Track => LoopState::NoLoop,
        }
    }
}

impl From<LoopState> for String {
    fn from(state: LoopState) -> (word: String)
        ensures
            word@ == state.name(),
    {
        match state {
            LoopState::NoLoop => NONE_STATUS.to_owned(),
            LoopState::Playlist => PLAYLIST_STATUS.to_owned(),
            LoopState::Track => TRACK_STATUS.to_owned(),
        }
    }
}

impl FromSpecImpl<LoopState> for String {
    open spec fn obeys_from_spec() -> bool {
        false
    }

    open spec fn from_spec(state: LoopState) -> String {
        arbitrary()
    }
}

/// Toggling visits playlist, then track, then none again: from any mode the
/// third toggle comes back to it, and no toggle leaves the mode unchanged.
pub proof fn lemma_loop_cycle(state: LoopState)
    ensures
        LoopState::NoLoop.following() == LoopState::Playlist,
        LoopState::NoLoop.following().following() == LoopState::Track,
        LoopState::NoLoop.following().following().following() == LoopState::NoLoop,
        state.following().following().following() == state,
        state.following() != state,
        state.following().following() != state,
{
}

/// The play state that a status report stands for: playing where any line of
/// it is exactly `Playing`, stopped otherwise.
pub open spec fn play_state_of(report: Seq<char>) -> PlayState {
    if has_line(report, "Playing"@) {
        PlayState::Playing
    } else {
        PlayState::Stopped
    }
}

/// The loop mode that a loop report stands for, once the line feeds at its
/// end are dropped: `Playlist` or `Track` by name, no loop for any other text.
pub open spec fn loop_state_of(report: Seq<char>) -> LoopState {
    let cleaned = trim_end_matches(report, "\n"@);
    if cleaned == "Playlist"@ {
        LoopState::Playlist
    } else if cleaned == "Track"@ {
        LoopState::Track
    } else {
        LoopState::NoLoop
    }
}

/// The command line `playerctl -a` followed by one word.
pub open spec fn player_words(request: Seq<char>) -> Seq<Seq<char>> {
    seq!["playerctl"@, "-a"@, request]
}

/// The command line that selects a loop mode.
pub open spec fn set_loop_words(state: LoopState) -> Seq<Seq<char>> {
    seq!["playerctl"@, "-a"@, "loop"@, state.name()]
}

fn player_request(request: &str) -> (call: Invocation)
    ensures
        call@ == player_words(request@),
{
    let mut call = Invocation::new(PLAYER);
    call.arg(ALL_PLAYERS.to_owned());
    call.arg(request.to_owned());
    assert(call@ =~= player_words(request@));
    call
}

/// Reads the play state in the report of `playerctl -a status`.
pub fn get_play_state(report: &str) -> (state: PlayState)
    ensures
        state == play_state_of(report@),
{
    let lines = chars_of(report);
    let playing = chars_of(PLAYING_STATUS);
    match contains_line(&lines, &playing) {
        true => PlayState::Playing,
        false => PlayState::Stopped,
    }
}

/// The request that flips between playing and paused.
pub fn toggle_play_state() -> (call: Invocation)
    ensures
        call@ == player_words("play-pause"@),
{
    player_request("play-pause")
}

/// The request that pauses every player.
pub fn pause() -> (call: Invocation)
    ensures
        call@ == player_words("pause"@),
{
    player_request("pause")
}

/// The request that sets every player playing.
pub fn play() -> (call: Invocation)
    ensures
        call@ == player_words("play"@),
{
    player_request("play")
}

/// Reads the loop mode in the report of `playerctl -a loop`.
pub fn get_loop_state(report: &str) -> (state: LoopState)
    ensures
        state == loop_state_of(report@),
{
    let cleaned = trim_end(chars_of(report), &chars_of("\n"));
    let playlist = chars_of(PLAYLIST_STATUS);
    let track = chars_of(TRACK_STATUS);
    assert(cleaned@.subrange(0, cleaned@.len() as int) =~= cleaned@);
    if range_equals(&cleaned, 0, cleaned.len(), &playlist) {
        LoopState::Playlist
    } else if range_equals(&cleaned, 0, cleaned.len(), &track) {
        LoopState::Track
    } else {
        LoopState::NoLoop
    }
}

/// The request that moves the player to the loop mode after the one that its
/// loop report shows.
pub fn toggle_loop_state(report: &str) -> (call: Invocation)
    ensures
        call@ == set_loop_words(loop_state_of(report@).following()),
{
    let current_loop_state = get_loop_state(report);
    match current_loop_state {
        LoopState::NoLoop => set_loop_state(LoopState::Playlist),
        LoopState::Playlist => set_loop_state(LoopState::Track),
        LoopState::Track => set_loop_state(LoopState::NoLoop),
    }
}

/// The request that selects a loop mode.
pub fn set_loop_state(new_loop_state: LoopState) -> (call: Invocation)
    ensures
        call@ == set_loop_words(new_loop_state),
{
    let str_loop_state: String = String::from(new_loop_state);
    let mut call = Invocation::new(PLAYER);
    call.arg(ALL_PLAYERS.to_owned());
    call.arg("loop".to_owned());
    call.arg(str_loop_state);
    assert(call@ =~= set_loop_words(new_loop_state));
    call
}

/// The request that skips to the next track.
pub fn next() -> (call: Invocation)
    ensures
        call@ == player_words("next"@),
{
    player_request("next")
}

/// The request that goes back to the previous track.
pub fn previous() -> (call: Invocation)
    ensures
        call@ == player_words("previous"@),
{
    player_request("previous")
}

} // verus!
