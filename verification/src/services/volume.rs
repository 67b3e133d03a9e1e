//! The mixer: the volume in its report, and the requests it takes.

use crate::pattern::{first_match, regex_accepts, regex_find};
use crate::services::Invocation;
use crate::text::{
    chars_of, decimal_string, decimal_text, find_line, line, parse_byte, parse_u8, trim_end,
    trim_end_matches, trim_start, trim_start_matches,
};
use vstd::prelude::*;

verus! {

/// The mixer's command-line tool.
pub const MIXER: &'static str = "amixer";

/// A percentage between square brackets, as the mixer prints a channel's
/// volume.
pub const PERCENT_PATTERN: &'static str = "\\[(.*?)\\%\\]";

/// Line of the mixer's report that holds the left channel, counting from 0.
pub const LEFT_LINE: usize = 5;

/// Line of the mixer's report that holds the right channel, counting from 0.
pub const RIGHT_LINE: usize = 6;

/// Loudest volume that the mixer is asked for, in percent.
pub const MAX_VOLUME: u8 = 100;

/// The percentage that a bracketed match writes: the match without the `%]`
/// at its end and the `[` at its start, read as a byte.
pub open spec fn percent_of_match(matched: Seq<char>) -> Option<u8> {
    parse_u8(trim_start_matches(trim_end_matches(matched, "%]"@), '['))
}

/// The percentage in a line of the mixer's report: that of the first
/// bracketed match in it.
pub open spec fn percent_of_line(text: Seq<char>) -> Option<u8> {
    if regex_accepts(PERCENT_PATTERN@) {
        match regex_find(PERCENT_PATTERN@, text) {
            Some(matched) => percent_of_match(matched),
            None => None,
        }
    } else {
        None
    }
}

/// Both channels, or silence on both where either is missing.
pub open spec fn both_or_silence(left: Option<u8>, right: Option<u8>) -> (u8, u8) {
    match (left, right) {
        (Some(l), Some(r)) => (l, r),
        _ => (0u8, 0u8),
    }
}

/// Left and right volume in the mixer's report. A report that is too short,
/// or whose channel lines hold no percentage that is a byte, reads as silence.
pub open spec fn volume_of_report(report: Seq<char>) -> (u8, u8) {
    match (line(report, LEFT_LINE as nat), line(report, RIGHT_LINE as nat)) {
        (Some(left), Some(right)) => both_or_silence(
            percent_of_line(left),
            percent_of_line(right),
        ),
        _ => (0u8, 0u8),
    }
}

/// The command line that sets the master volume to `setting`.
pub open spec fn mixer_words(setting: Seq<char>) -> Seq<Seq<char>> {
    seq!["amixer"@, "-D"@, "pulse"@, "sset"@, "Master"@, setting]
}

/// The setting that asks for an absolute volume, such as `70%`.
pub open spec fn volume_setting(value: u8) -> Seq<char> {
    decimal_text(value as nat) + "%"@
}

/// The setting that asks for a step up or down, such as `5%+`.
pub open spec fn nudge_setting(by: u8, nudge_up: bool) -> Seq<char> {
    decimal_text(by as nat) + "%"@ + if nudge_up {
        "+"@
    } else {
        "-"@
    }
}

fn mixer_request(setting: String) -> (call: Invocation)
    ensures
        call@ == mixer_words(setting@),
{
    let mut call = Invocation::new(MIXER);
    call.arg("-D".to_owned());
    call.arg("pulse".to_owned());
    call.arg("sset".to_owned());
    call.arg("Master".to_owned());
    call.arg(setting);
    assert(call@ =~= mixer_words(setting@));
    call
}

/// Reads the percentage out of the text that matched the bracket pattern.
pub fn percent_in_match(matched: &str) -> (percent: Option<u8>)
    ensures
        percent == percent_of_match(matched@),
{
    let inner = trim_end(chars_of(matched), &chars_of("%]"));
    let digits = trim_start(&inner, '[');
    parse_byte(&digits)
}

/// Reads the percentage of one channel line.
pub fn percent_in_line(text: &str) -> (percent: Option<u8>)
    ensures
        percent == percent_of_line(text@),
{
    match first_match(PERCENT_PATTERN, text) {
        Ok(Some(matched)) => percent_in_match(matched.as_str()),
        Ok(None) => None,
        Err(_) => None,
    }
}

/// Reads left and right volume in the report of `amixer -D pulse sget Master`.
pub fn get_current_volume(report: &str) -> (volume: (u8, u8))
    ensures
        volume == volume_of_report(report@),
{
    let chars = chars_of(report);
    let left_bounds = find_line(&chars, LEFT_LINE);
    let right_bounds = find_line(&chars, RIGHT_LINE);
    match (left_bounds, right_bounds) {
        (Some((left_start, left_end)), Some((right_start, right_end))) => {
            let left = percent_in_line(report.substring_char(left_start, left_end));
            if left.is_none() {
                return (0, 0);
            }
            let right = percent_in_line(report.substring_char(right_start, right_end));
            if right.is_none() {
                return (0, 0);
            }
            (left.unwrap(), right.unwrap())
        },
        _ => (0, 0),
    }
}

/// The request that sets the volume, or `None` for a value above 100, which
/// is dropped without a request.
pub fn set_volume(new_value: u8) -> (call: Option<Invocation>)
    ensures
        new_value > MAX_VOLUME ==> call is None,
        new_value <= MAX_VOLUME ==> call is Some && call->0@ == mixer_words(
            volume_setting(new_value),
        ),
{
    if new_value > MAX_VOLUME {
        return None;
    }
    let mut setting = decimal_string(new_value);
    setting.append("%");
    Some(mixer_request(setting))
}

/// The request that moves the volume by `by` percent, up or down.
pub fn nudge(by: u8, nudge_up: bool) -> (call: Invocation)
    ensures
        call@ == mixer_words(nudge_setting(by, nudge_up)),
{
    let nudge_symbol = if nudge_up {
        "+"
    } else {
        "-"
    };
    let mut setting = decimal_string(by);
    setting.append("%");
    setting.append(nudge_symbol);
    mixer_request(setting)
}

} // verus!
