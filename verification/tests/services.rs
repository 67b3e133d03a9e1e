use midi_surface::services::track::{
    get_loop_state, get_play_state, next, pause, play, previous, set_loop_state,
    toggle_loop_state, toggle_play_state, LoopState, PlayState,
};
use midi_surface::services::volume::{
    get_current_volume, nudge, percent_in_line, percent_in_match, set_volume,
};
use midi_surface::services::Invocation;

const MIXER_REPORT: &str = "Simple mixer control 'Master',0
  Capabilities: pvolume pswitch pswitch-joined
  Playback channels: Front Left - Front Right
  Limits: Playback 0 - 65536
  Mono:
  Front Left: Playback 45875 [70%] [on]
  Front Right: Playback 42598 [65%] [on]
";

fn words(call: &Invocation) -> Vec<String> {
    let mut all = vec![call.program.clone()];
    all.extend(call.args.iter().cloned());
    all
}

fn player(request: &[&str]) -> Vec<String> {
    let mut all = vec!["playerctl".to_string(), "-a".to_string()];
    all.extend(request.iter().map(|w| w.to_string()));
    all
}

fn mixer(setting: &str) -> Vec<String> {
    ["amixer", "-D", "pulse", "sset", "Master", setting].iter().map(|w| w.to_string()).collect()
}

#[test]
fn play_state_is_playing_when_any_line_says_so() {
    assert_eq!(get_play_state("Playing\n"), PlayState::Playing);
    assert_eq!(get_play_state("Paused\nPlaying\nStopped\n"), PlayState::Playing);
    assert_eq!(get_play_state("Stopped\nPlaying"), PlayState::Playing);
}

#[test]
fn play_state_is_stopped_otherwise() {
    assert_eq!(get_play_state(""), PlayState::Stopped);
    assert_eq!(get_play_state("Paused\nStopped\n"), PlayState::Stopped);
    assert_eq!(get_play_state("No players found"), PlayState::Stopped);
}

#[test]
fn play_state_wants_the_whole_line() {
    assert_eq!(get_play_state("Playing \n"), PlayState::Stopped);
    assert_eq!(get_play_state(" Playing\n"), PlayState::Stopped);
    assert_eq!(get_play_state("playing\n"), PlayState::Stopped);
    assert_eq!(get_play_state("Playing\r\n"), PlayState::Stopped);
    assert_eq!(get_play_state("NotPlaying\nPlayingNot\n"), PlayState::Stopped);
}

#[test]
fn loop_state_by_name() {
    assert_eq!(get_loop_state("Playlist\n"), LoopState::Playlist);
    assert_eq!(get_loop_state("Track\n"), LoopState::Track);
    assert_eq!(get_loop_state("None\n"), LoopState::NoLoop);
    assert_eq!(get_loop_state("Track"), LoopState::Track);
    assert_eq!(get_loop_state("Playlist\n\n\n"), LoopState::Playlist);
}

#[test]
fn loop_state_defaults_to_no_loop() {
    assert_eq!(get_loop_state(""), LoopState::NoLoop);
    assert_eq!(get_loop_state("\n"), LoopState::NoLoop);
    assert_eq!(get_loop_state("track\n"), LoopState::NoLoop);
    assert_eq!(get_loop_state("Track \n"), LoopState::NoLoop);
    assert_eq!(get_loop_state("None\nTrack\n"), LoopState::NoLoop);
    assert_eq!(get_loop_state("\nTrack"), LoopState::NoLoop);
    assert_eq!(get_loop_state("No players found\n"), LoopState::NoLoop);
}

#[test]
fn loop_mode_cycle_from_none() {
    let first = LoopState::NoLoop.next();
    let second = first.next();
    let third = second.next();
    assert_eq!(first, LoopState::Playlist);
    assert_eq!(second, LoopState::Track);
    assert_eq!(third, LoopState::NoLoop);
}

#[test]
fn toggle_asks_for_the_mode_after_the_reported_one() {
    assert_eq!(words(&toggle_loop_state("None\n")), player(&["loop", "Playlist"]));
    assert_eq!(words(&toggle_loop_state("Playlist\n")), player(&["loop", "Track"]));
    assert_eq!(words(&toggle_loop_state("Track\n")), player(&["loop", "None"]));
    assert_eq!(words(&toggle_loop_state("garbage")), player(&["loop", "Playlist"]));
}

#[test]
fn loop_mode_names() {
    assert_eq!(String::from(LoopState::NoLoop), "None");
    assert_eq!(String::from(LoopState::Track), "Track");
    assert_eq!(String::from(LoopState::Playlist), "Playlist");
    let name: String = LoopState::Track.into();
    assert_eq!(name, "Track");
}

#[test]
fn set_loop_state_request() {
    assert_eq!(words(&set_loop_state(LoopState::NoLoop)), player(&["loop", "None"]));
    assert_eq!(words(&set_loop_state(LoopState::Track)), player(&["loop", "Track"]));
    assert_eq!(words(&set_loop_state(LoopState::Playlist)), player(&["loop", "Playlist"]));
}

#[test]
fn player_requests() {
    assert_eq!(words(&toggle_play_state()), player(&["play-pause"]));
    assert_eq!(words(&pause()), player(&["pause"]));
    assert_eq!(words(&play()), player(&["play"]));
    assert_eq!(words(&next()), player(&["next"]));
    assert_eq!(words(&previous()), player(&["previous"]));
}

#[test]
fn invocation_keeps_program_apart_from_arguments() {
    let call = next();
    assert_eq!(call.program, "playerctl");
    assert_eq!(call.args, vec!["-a", "next"]);
    let mut built = Invocation::new("tool");
    assert!(built.args.is_empty());
    built.arg("one".to_string());
    built.arg("two".to_string());
    assert_eq!(built.args, vec!["one", "two"]);
}

#[test]
fn set_volume_above_one_hundred_issues_nothing() {
    assert_eq!(set_volume(150), None);
    assert_eq!(set_volume(101), None);
    assert_eq!(set_volume(255), None);
}

#[test]
fn set_volume_issues_one_call_with_the_percentage() {
    assert_eq!(words(&set_volume(70).unwrap()), mixer("70%"));
    assert_eq!(words(&set_volume(0).unwrap()), mixer("0%"));
    assert_eq!(words(&set_volume(5).unwrap()), mixer("5%"));
    assert_eq!(words(&set_volume(100).unwrap()), mixer("100%"));
}

#[test]
fn nudge_request() {
    assert_eq!(words(&nudge(5, true)), mixer("5%+"));
    assert_eq!(words(&nudge(5, false)), mixer("5%-"));
    assert_eq!(words(&nudge(255, true)), mixer("255%+"));
    assert_eq!(words(&nudge(0, false)), mixer("0%-"));
}

#[test]
fn current_volume_of_a_mixer_report() {
    assert_eq!(get_current_volume(MIXER_REPORT), (70, 65));
}

#[test]
fn current_volume_reads_lines_five_and_six_only() {
    let report = "[1%]\n[2%]\n[3%]\n[4%]\n[5%]\n[6%]\n[7%]\n[8%]";
    assert_eq!(get_current_volume(report), (6, 7));
}

#[test]
fn current_volume_of_a_short_report_is_silence() {
    assert_eq!(get_current_volume(""), (0, 0));
    assert_eq!(get_current_volume("a\nb\nc\nd\ne\n[50%]"), (0, 0));
    assert_eq!(get_current_volume("a\nb\nc\nd\ne\n[50%]\n"), (0, 0));
}

#[test]
fn current_volume_without_a_percentage_is_silence() {
    assert_eq!(get_current_volume("a\nb\nc\nd\ne\n[50%]\n[on]"), (0, 0));
    assert_eq!(get_current_volume("a\nb\nc\nd\ne\nmuted\n[50%]"), (0, 0));
    assert_eq!(get_current_volume("a\nb\nc\nd\ne\n[x%]\n[50%]"), (0, 0));
    assert_eq!(get_current_volume("a\nb\nc\nd\ne\n[50%]\n[300%]"), (0, 0));
    assert_eq!(get_current_volume("a\nb\nc\nd\ne\n[50%]\n[%]"), (0, 0));
}

#[test]
fn current_volume_takes_the_first_bracket_of_a_line() {
    assert_eq!(get_current_volume("a\nb\nc\nd\ne\n[12%] [99%]\n[34%] [on]"), (12, 34));
    assert_eq!(get_current_volume("a\nb\nc\nd\ne\n[12%] [99%]\n[on] [34%]"), (0, 0));
    assert_eq!(get_current_volume("a\nb\nc\nd\ne\nx[[12%]\n  [+34%] "), (12, 34));
}

#[test]
fn percent_in_line_finds_the_bracketed_number() {
    assert_eq!(percent_in_line("  Front Left: Playback 45875 [70%] [on]"), Some(70));
    assert_eq!(percent_in_line("[0%]"), Some(0));
    assert_eq!(percent_in_line("[255%]"), Some(255));
    assert_eq!(percent_in_line("[256%]"), None);
    assert_eq!(percent_in_line("70%"), None);
    assert_eq!(percent_in_line(""), None);
}

#[test]
fn percent_in_match_strips_brackets_and_reads_a_byte() {
    assert_eq!(percent_in_match("[70%]"), Some(70));
    assert_eq!(percent_in_match("[[70%]"), Some(70));
    assert_eq!(percent_in_match("[70%]%]"), Some(70));
    assert_eq!(percent_in_match("70"), Some(70));
    assert_eq!(percent_in_match("[007%]"), Some(7));
    assert_eq!(percent_in_match("[+7%]"), Some(7));
    assert_eq!(percent_in_match("[-7%]"), None);
    assert_eq!(percent_in_match("[7 %]"), None);
    assert_eq!(percent_in_match("[%]"), None);
    assert_eq!(percent_in_match("[7%"), None);
    assert_eq!(percent_in_match("  Front Left: Playback 45875 [70%] [on]"), None);
}
