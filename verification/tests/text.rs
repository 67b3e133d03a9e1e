use midi_surface::text::{
    chars_of, contains_line, copy_range, decimal_string, find_line, find_line_end, parse_byte,
    range_equals, trim_end, trim_start,
};

fn chars(s: &str) -> Vec<char> {
    s.chars().collect()
}

#[test]
fn chars_of_keeps_every_character() {
    assert_eq!(chars_of(""), chars(""));
    assert_eq!(chars_of("a\nb"), vec!['a', '\n', 'b']);
    assert_eq!(chars_of("é√\u{fffd}"), vec!['é', '√', '\u{fffd}']);
}

#[test]
fn line_ends_at_line_feed_or_text_end() {
    let text = chars("ab\ncd");
    assert_eq!(find_line_end(&text, 0), 2);
    assert_eq!(find_line_end(&text, 2), 2);
    assert_eq!(find_line_end(&text, 3), 5);
    assert_eq!(find_line_end(&text, 5), 5);
}

#[test]
fn lines_are_separated_by_line_feeds() {
    let text = chars("ab\n\ncd\n");
    assert_eq!(find_line(&text, 0), Some((0, 2)));
    assert_eq!(find_line(&text, 1), Some((3, 3)));
    assert_eq!(find_line(&text, 2), Some((4, 6)));
    assert_eq!(find_line(&text, 3), Some((7, 7)));
    assert_eq!(find_line(&text, 4), None);
    assert_eq!(find_line(&text, usize::MAX), None);
}

#[test]
fn empty_text_has_one_empty_line() {
    assert_eq!(find_line(&chars(""), 0), Some((0, 0)));
    assert_eq!(find_line(&chars(""), 1), None);
    assert!(contains_line(&chars(""), &chars("")));
}

#[test]
fn contains_line_matches_whole_lines() {
    let text = chars("one\ntwo\nthree");
    assert!(contains_line(&text, &chars("one")));
    assert!(contains_line(&text, &chars("two")));
    assert!(contains_line(&text, &chars("three")));
    assert!(!contains_line(&text, &chars("tw")));
    assert!(!contains_line(&text, &chars("")));
    assert!(!contains_line(&text, &chars("one\ntwo")));
    assert!(contains_line(&chars("one\n"), &chars("")));
}

#[test]
fn range_equals_and_copy_range() {
    let text = chars("hello");
    assert!(range_equals(&text, 1, 3, &chars("el")));
    assert!(!range_equals(&text, 1, 3, &chars("eL")));
    assert!(!range_equals(&text, 1, 3, &chars("ell")));
    assert!(range_equals(&text, 2, 2, &chars("")));
    assert_eq!(copy_range(&text, 1, 4), chars("ell"));
    assert_eq!(copy_range(&text, 5, 5), chars(""));
}

#[test]
fn trim_end_removes_every_repetition() {
    assert_eq!(trim_end(chars("ab\n\n"), &chars("\n")), chars("ab"));
    assert_eq!(trim_end(chars("70%]%]"), &chars("%]")), chars("70"));
    assert_eq!(trim_end(chars("70%]]"), &chars("%]")), chars("70%]]"));
    assert_eq!(trim_end(chars("%]"), &chars("%]")), chars(""));
    assert_eq!(trim_end(chars("]"), &chars("%]")), chars("]"));
    assert_eq!(trim_end(chars("abc"), &chars("")), chars("abc"));
    assert_eq!(trim_end(chars(""), &chars("x")), chars(""));
}

#[test]
fn trim_start_removes_every_repetition() {
    assert_eq!(trim_start(&chars("[[70"), '['), chars("70"));
    assert_eq!(trim_start(&chars("70[["), '['), chars("70[["));
    assert_eq!(trim_start(&chars("[["), '['), chars(""));
    assert_eq!(trim_start(&chars(""), '['), chars(""));
}

#[test]
fn parse_byte_reads_decimal_bytes() {
    assert_eq!(parse_byte(&chars("0")), Some(0));
    assert_eq!(parse_byte(&chars("70")), Some(70));
    assert_eq!(parse_byte(&chars("255")), Some(255));
    assert_eq!(parse_byte(&chars("+255")), Some(255));
    assert_eq!(parse_byte(&chars("000000000000000000000000000000255")), Some(255));
}

#[test]
fn parse_byte_refuses_everything_else() {
    for text in ["", "+", "-", "-1", "-0", "256", "1000", "99999999999999999999", "++1", "1+",
        " 1", "1 ", "0x10", "1.0", "１", "٣", "a"]
    {
        assert_eq!(parse_byte(&chars(text)), None, "{:?}", text);
    }
}

#[test]
fn parse_byte_agrees_with_the_standard_parser() {
    for text in ["7", "+7", "07", "255", "256", "", "+", "-7", "7a", "  7"] {
        assert_eq!(parse_byte(&chars(text)), text.parse::<u8>().ok(), "{:?}", text);
    }
}

#[test]
fn decimal_string_writes_every_byte() {
    for n in 0..=255u8 {
        assert_eq!(decimal_string(n), format!("{}", n));
    }
}

#[test]
fn parse_byte_undoes_decimal_string() {
    for n in 0..=255u8 {
        assert_eq!(parse_byte(&chars(&decimal_string(n))), Some(n));
    }
}
