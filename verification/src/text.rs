//! Text of the status reports: lines, trimming, and decimal numbers.
//!
//! Every function here works on the characters of a text, which is what the
//! view of a `str` is, so no byte offset or encoding enters a contract.

use vstd::prelude::*;

verus! {

/// The characters of `s`, in order.
pub fn chars_of(s: &str) -> (chars: Vec<char>)
    ensures
        chars@ == s@,
{
    let mut chars: Vec<char> = Vec::new();
    for c in it: s.chars()
        invariant
            it.seq() == s@,
            chars@ == it.seq().take(it.index() as int),
    {
        chars.push(c);
        assert(chars@ =~= it.seq().take(it.index() + 1));
    }
    assert(chars@ =~= s@);
    chars
}

/// Where the line that starts at `from` ends: at the first line feed from
/// there on, or at the end of the text.
pub open spec fn line_end(s: Seq<char>, from: int) -> int
    decreases s.len() - from,
{
    if from >= s.len() || s[from] == '\n' {
        from
    } else {
        line_end(s, from + 1)
    }
}

/// Where line `n` starts, counting from 0, or `None` if the text has fewer
/// lines. Line feeds separate lines, so a text has one line more than it has
/// line feeds, and the empty text has one empty line.
pub open spec fn line_start(s: Seq<char>, n: nat) -> Option<int>
    decreases n,
{
    if n == 0 {
        Some(0int)
    } else {
        match line_start(s, (n - 1) as nat) {
            Some(previous) => if line_end(s, previous) < s.len() {
                Some(line_end(s, previous) + 1)
            } else {
                None
            },
            None => None,
        }
    }
}

/// Line `n` of the text without its line feed, or `None` if the text has
/// fewer lines.
pub open spec fn line(s: Seq<char>, n: nat) -> Option<Seq<char>> {
    match line_start(s, n) {
        Some(start) => Some(s.subrange(start, line_end(s, start))),
        None => None,
    }
}

/// Whether some line of the text is exactly `wanted`.
pub open spec fn has_line(s: Seq<char>, wanted: Seq<char>) -> bool {
    exists|n: nat| line(s, n) == Some(wanted)
}

/// Whether the text ends with `pat`.
pub open spec fn ends_with(s: Seq<char>, pat: Seq<char>) -> bool {
    pat.len() <= s.len() && s.subrange(s.len() - pat.len(), s.len() as int) == pat
}

/// The text without any repetition of `pat` at its end. An empty `pat`
/// removes nothing.
pub open spec fn trim_end_matches(s: Seq<char>, pat: Seq<char>) -> Seq<char>
    decreases s.len(),
{
    if pat.len() > 0 && ends_with(s, pat) {
        trim_end_matches(s.subrange(0, s.len() - pat.len()), pat)
    } else {
        s
    }
}

/// The text without any repetition of the character `c` at its start.
pub open spec fn trim_start_matches(s: Seq<char>, c: char) -> Seq<char>
    decreases s.len(),
{
    if s.len() > 0 && s[0] == c {
        trim_start_matches(s.subrange(1, s.len() as int), c)
    } else {
        s
    }
}

pub open spec fn is_digit(c: char) -> bool {
    '0' <= c <= '9'
}

/// Value of a decimal digit; 0 for any other character.
pub open spec fn digit_value(c: char) -> nat {
    if is_digit(c) {
        (c as u32 - '0' as u32) as nat
    } else {
        0
    }
}

pub open spec fn all_digits(s: Seq<char>) -> bool {
    forall|i: int| 0 <= i < s.len() ==> is_digit(#[trigger] s[i])
}

/// The number that a run of decimal digits writes, most significant first.
pub open spec fn decimal_value(s: Seq<char>) -> nat
    decreases s.len(),
{
    if s.len() == 0 {
        0
    } else {
        decimal_value(s.drop_last()) * 10 + digit_value(s.last())
    }
}

/// The text after one optional leading plus sign.
pub open spec fn unsigned_part(s: Seq<char>) -> Seq<char> {
    if s.len() > 0 && s[0] == '+' {
        s.subrange(1, s.len() as int)
    } else {
        s
    }
}

/// The byte that the text writes in decimal: an optional plus sign, then one
/// digit or more, leading zeros allowed, nothing else, and a value of at most
/// 255. `None` for every other text.
pub open spec fn parse_u8(s: Seq<char>) -> Option<u8> {
    let digits = unsigned_part(s);
    if digits.len() > 0 && all_digits(digits) && decimal_value(digits) <= u8::MAX {
        Some(decimal_value(digits) as u8)
    } else {
        None
    }
}

/// The character that writes a digit below 10.
pub open spec fn digit_char(d: nat) -> char {
    seq!['0', '1', '2', '3', '4', '5', '6', '7', '8', '9'][d as int]
}

/// `n` in decimal, without sign or leading zeros.
pub open spec fn decimal_text(n: nat) -> Seq<char>
    decreases n,
{
    if n < 10 {
        seq![digit_char(n)]
    } else {
        decimal_text(n / 10).push(digit_char(n % 10))
    }
}

/// Once a line is missing, every later line is missing too.
pub proof fn lemma_no_later_line(s: Seq<char>, n: nat, m: nat)
    requires
        line_start(s, n) is None,
        n <= m,
    ensures
        line_start(s, m) is None,
    decreases m,
{
    if m > n {
        lemma_no_later_line(s, n, (m - 1) as nat);
    }
}

/// A prefix of a run of characters writes no larger a number than the run.
pub proof fn lemma_decimal_value_prefix(s: Seq<char>, k: int)
    requires
        0 <= k <= s.len(),
    ensures
        decimal_value(s.take(k)) <= decimal_value(s),
    decreases s.len() - k,
{
    if k < s.len() {
        lemma_decimal_value_prefix(s, k + 1);
        assert(s.take(k + 1).drop_last() =~= s.take(k));
    } else {
        assert(s.take(k) =~= s);
    }
}

/// End of the line that starts at `from`.
pub fn find_line_end(s: &Vec<char>, from: usize) -> (end: usize)
    requires
        from <= s.len(),
    ensures
        end == line_end(s@, from as int),
        from <= end <= s.len(),
{
    let mut i: usize = from;
    while i < s.len() && s[i] != '\n'
        invariant
            from <= i <= s.len(),
            line_end(s@, i as int) == line_end(s@, from as int),
        decreases s.len() - i,
    {
        i += 1;
    }
    i
}

/// Start and end of line `n`, or `None` if the text has fewer lines.
pub fn find_line(s: &Vec<char>, n: usize) -> (bounds: Option<(usize, usize)>)
    ensures
        match bounds {
            Some((start, end)) => {
                &&& line_start(s@, n as nat) == Some(start as int)
                &&& end == line_end(s@, start as int)
                &&& start <= end <= s.len()
            },
            None => line_start(s@, n as nat) is None,
        },
{
    let mut start: usize = 0;
    let mut k: usize = 0;
    while k < n
        invariant
            k <= n,
            start <= s.len(),
            line_start(s@, k as nat) == Some(start as int),
        decreases n - k,
    {
        let end: usize = find_line_end(s, start);
        if end >= s.len() {
            proof {
                lemma_no_later_line(s@, (k + 1) as nat, n as nat);
            }
            return None;
        }
        start = end + 1;
        k += 1;
    }
    let end: usize = find_line_end(s, start);
    Some((start, end))
}

/// Whether the characters from `start` up to `end` are exactly `other`.
pub fn range_equals(s: &Vec<char>, start: usize, end: usize, other: &Vec<char>) -> (same: bool)
    requires
        start <= end <= s.len(),
    ensures
        same == (s@.subrange(start as int, end as int) == other@),
{
    if end - start != other.len() {
        return false;
    }
    let mut i: usize = 0;
    while i < other.len()
        invariant
            start <= end <= s.len(),
            end - start == other.len(),
            i <= other.len(),
            forall|j: int| 0 <= j < i ==> s@[start + j] == other@[j],
        decreases other.len() - i,
    {
        if s[start + i] != other[i] {
            assert(s@.subrange(start as int, end as int)[i as int] != other@[i as int]);
            return false;
        }
        i += 1;
    }
    assert(s@.subrange(start as int, end as int) =~= other@);
    true
}

/// Whether some line of the text is exactly `wanted`.
pub fn contains_line(s: &Vec<char>, wanted: &Vec<char>) -> (found: bool)
    ensures
        found == has_line(s@, wanted@),
{
    let mut start: usize = 0;
    let ghost mut k: nat = 0;
    loop
        invariant
            start <= s.len(),
            line_start(s@, k) == Some(start as int),
            forall|j: nat| j < k ==> line(s@, j) != Some(wanted@),
        decreases s.len() - start,
    {
        let end: usize = find_line_end(s, start);
        if range_equals(s, start, end, wanted) {
            assert(line(s@, k) == Some(wanted@));
            return true;
        }
        if end >= s.len() {
            proof {
                assert forall|j: nat| line(s@, j) != Some(wanted@) by {
                    if j > k {
                        lemma_no_later_line(s@, k + 1, j);
                    }
                }
            }
            return false;
        }
        start = end + 1;
        proof {
            k = k + 1;
        }
    }
}

/// A copy of the characters from `start` up to `end`.
pub fn copy_range(s: &Vec<char>, start: usize, end: usize) -> (part: Vec<char>)
    requires
        start <= end <= s.len(),
    ensures
        part@ == s@.subrange(start as int, end as int),
{
    let mut part: Vec<char> = Vec::new();
    let mut i: usize = start;
    while i < end
        invariant
            start <= i <= end <= s.len(),
            part@ == s@.subrange(start as int, i as int),
        decreases end - i,
    {
        part.push(s[i]);
        assert(part@ =~= s@.subrange(start as int, i + 1));
        i += 1;
    }
    part
}

/// Removes every repetition of `pat` from the end of `text`.
pub fn trim_end(text: Vec<char>, pat: &Vec<char>) -> (trimmed: Vec<char>)
    ensures
        trimmed@ == trim_end_matches(text@, pat@),
{
    let mut rest: Vec<char> = text;
    if pat.len() == 0 {
        return rest;
    }
    loop
        invariant
            pat.len() > 0,
            trim_end_matches(rest@, pat@) == trim_end_matches(text@, pat@),
        decreases rest.len(),
    {
        let n: usize = rest.len();
        if n < pat.len() {
            return rest;
        }
        if !range_equals(&rest, n - pat.len(), n, pat) {
            return rest;
        }
        rest.truncate(n - pat.len());
    }
}

/// Removes every repetition of `c` from the start of `text`.
pub fn trim_start(text: &Vec<char>, c: char) -> (trimmed: Vec<char>)
    ensures
        trimmed@ == trim_start_matches(text@, c),
{
    let n: usize = text.len();
    let mut i: usize = 0;
    assert(text@.subrange(0, n as int) =~= text@);
    while i < n && text[i] == c
        invariant
            n == text.len(),
            i <= n,
            trim_start_matches(text@.subrange(i as int, n as int), c) == trim_start_matches(
                text@,
                c,
            ),
        decreases n - i,
    {
        assert(text@.subrange(i as int, n as int).subrange(1, n - i) =~= text@.subrange(
            i + 1,
            n as int,
        ));
        i += 1;
    }
    copy_range(text, i, n)
}

/// Reads a byte written in decimal.
pub fn parse_byte(s: &Vec<char>) -> (value: Option<u8>)
    ensures
        value == parse_u8(s@),
{
    let n: usize = s.len();
    let first: usize = if n > 0 && s[0] == '+' {
        1
    } else {
        0
    };
    let ghost digits = unsigned_part(s@);
    if first >= n {
        return None;
    }
    let mut total: u16 = 0;
    let mut i: usize = first;
    while i < n
        invariant
            n == s.len(),
            first <= i <= n,
            digits == unsigned_part(s@),
            digits == s@.subrange(first as int, n as int),
            all_digits(digits.take(i - first)),
            total == decimal_value(digits.take(i - first)),
            total <= u8::MAX,
        decreases n - i,
    {
        let c: char = s[i];
        if !(c >= '0' && c <= '9') {
            assert(!is_digit(digits[i - first]));
            return None;
        }
        let digit: u16 = (c as u8 - 48) as u16;
        let next: u16 = total * 10 + digit;
        proof {
            assert(digits.take(i + 1 - first).drop_last() =~= digits.take(i - first));
            assert(digits.take(i + 1 - first).last() == c);
            assert(next == decimal_value(digits.take(i + 1 - first)));
        }
        if next > 255 {
            proof {
                lemma_decimal_value_prefix(digits, i + 1 - first);
            }
            return None;
        }
        total = next;
        i += 1;
    }
    assert(digits.take(n - first) =~= digits);
    Some(total as u8)
}

/// The one-character text of a digit.
fn digit_str(d: u8) -> (text: &'static str)
    requires
        d < 10,
    ensures
        text@ == seq![digit_char(d as nat)],
{
    proof {
        reveal_strlit("0");
        reveal_strlit("1");
        reveal_strlit("2");
        reveal_strlit("3");
        reveal_strlit("4");
        reveal_strlit("5");
        reveal_strlit("6");
        reveal_strlit("7");
        reveal_strlit("8");
        reveal_strlit("9");
    }
    let text: &'static str = match d {
        0 => "0",
        1 => "1",
        2 => "2",
        3 => "3",
        4 => "4",
        5 => "5",
        6 => "6",
        7 => "7",
        8 => "8",
        _ => "9",
    };
    assert(text@ =~= seq![digit_char(d as nat)]);
    text
}

/// Writes a byte in decimal.
pub fn decimal_string(n: u8) -> (text: String)
    ensures
        text@ == decimal_text(n as nat),
{
    let mut text: String = String::new();
    if n >= 100 {
        text.append(digit_str(n / 100));
    }
    if n >= 10 {
        text.append(digit_str((n / 10) % 10));
    }
    text.append(digit_str(n % 10));
    proof {
        reveal_with_fuel(decimal_text, 3);
        assert(text@ =~= decimal_text(n as nat));
    }
    text
}

} // verus!
