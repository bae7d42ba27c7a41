use zapret_core::text::chars_of;
use zapret_core::text::contains;
use zapret_core::text::decimal;
use zapret_core::text::find;
use zapret_core::text::first_line;
use zapret_core::text::joined;
use zapret_core::text::parse_decimal;
use zapret_core::text::push_decimal;
use zapret_core::text::string_of;
use zapret_core::text::trim;
use zapret_core::text::CharClass;

fn chars(s: &str) -> Vec<char> {
    s.chars().collect()
}

fn text(chars: &[char]) -> String {
    chars.iter().collect()
}

#[test]
fn chars_of_gives_every_character_in_order() {
    assert_eq!(chars_of("a\u{e9}z"), vec!['a', '\u{e9}', 'z']);
    assert_eq!(chars_of(""), Vec::<char>::new());
}

#[test]
fn string_of_builds_the_same_text() {
    assert_eq!(string_of(&chars("winws.exe")), "winws.exe");
    assert_eq!(string_of(&[]), "");
}

#[test]
fn joined_puts_tail_after_base() {
    assert_eq!(joined("--wf-tcp=", "80,443"), "--wf-tcp=80,443");
    assert_eq!(joined("", ""), "");
}

#[test]
fn decimal_writes_numbers_without_leading_zeros() {
    assert_eq!(decimal(0), "0");
    assert_eq!(decimal(7), "7");
    assert_eq!(decimal(10), "10");
    assert_eq!(decimal(1234), "1234");
    assert_eq!(decimal(u32::MAX), "4294967295");
}

#[test]
fn decimal_agrees_with_the_standard_notation() {
    for n in [0u32, 1, 9, 10, 99, 100, 101, 65535, 1_000_000, u32::MAX - 1] {
        assert_eq!(decimal(n), n.to_string());
    }
}

#[test]
fn push_decimal_appends() {
    let mut out = String::from("PID eq ");
    push_decimal(&mut out, 4321);
    assert_eq!(out, "PID eq 4321");
}

#[test]
fn decimal_reads_back_as_the_same_number() {
    for n in [0u32, 5, 42, 1000, 4_000_000_000, u32::MAX] {
        assert_eq!(parse_decimal(&chars(&decimal(n))), Some(n));
    }
}

#[test]
fn find_stops_at_the_first_character_of_the_class() {
    assert_eq!(find(&chars("ab,cd,e"), CharClass::Comma), 2);
    assert_eq!(find(&chars("abc"), CharClass::Comma), 3);
    assert_eq!(find(&chars(""), CharClass::Comma), 0);
    assert_eq!(find(&chars("a\\b/c"), CharClass::PathSeparator), 1);
    assert_eq!(find(&chars("ab/c"), CharClass::PathSeparator), 2);
    assert_eq!(find(&chars("line\nnext"), CharClass::Newline), 4);
}

#[test]
fn char_classes_hold_what_they_name() {
    assert!(CharClass::Quote.holds('"'));
    assert!(!CharClass::Quote.holds('\''));
    assert!(CharClass::Newline.holds('\n'));
    assert!(!CharClass::Newline.holds('\r'));
    assert!(CharClass::PathSeparator.holds('/'));
    assert!(CharClass::PathSeparator.holds('\\'));
    assert!(!CharClass::PathSeparator.holds(':'));
}

#[test]
fn whitespace_class_is_the_unicode_property() {
    for code in 0u32..0x3100 {
        if let Some(c) = char::from_u32(code) {
            assert_eq!(CharClass::Whitespace.holds(c), c.is_whitespace(), "U+{:04X}", code);
        }
    }
}

#[test]
fn trim_takes_quotes_from_both_ends() {
    assert_eq!(text(trim(&chars("\"1234\""), CharClass::Quote)), "1234");
    assert_eq!(text(trim(&chars("\"\"12\"34\"\""), CharClass::Quote)), "12\"34");
    assert_eq!(text(trim(&chars("1234"), CharClass::Quote)), "1234");
    assert_eq!(text(trim(&chars("\"\"\""), CharClass::Quote)), "");
    assert_eq!(text(trim(&chars(""), CharClass::Quote)), "");
}

#[test]
fn trim_takes_white_space_from_both_ends() {
    assert_eq!(text(trim(&chars("  1234\n"), CharClass::Whitespace)), "1234");
    assert_eq!(text(trim(&chars("\u{a0}12 34\u{3000}\t"), CharClass::Whitespace)), "12 34");
    assert_eq!(text(trim(&chars(" \r\n "), CharClass::Whitespace)), "");
}

#[test]
fn trim_agrees_with_the_standard_trim() {
    for s in ["", " ", "a", " a", "a ", " a b ", "\n\t x\u{2003}", "\u{85}y\u{205f}"] {
        assert_eq!(text(trim(&chars(s), CharClass::Whitespace)), s.trim());
    }
}

#[test]
fn contains_finds_a_needle_anywhere() {
    assert!(contains(&chars("Image: winws.exe 1234"), &chars("winws.exe")));
    assert!(contains(&chars("winws.exe"), &chars("winws.exe")));
    assert!(contains(&chars("xxwinws.exe"), &chars("winws.exe")));
    assert!(contains(&chars("abc"), &chars("")));
    assert!(contains(&chars(""), &chars("")));
}

#[test]
fn contains_rejects_what_is_not_there() {
    assert!(!contains(&chars("winws.ex"), &chars("winws.exe")));
    assert!(!contains(&chars(""), &chars("a")));
    assert!(!contains(&chars("win ws.exe"), &chars("winws.exe")));
    assert!(!contains(&chars("12345"), &chars("54")));
}

#[test]
fn contains_agrees_with_the_standard_search() {
    let hay = "INFO: No tasks are running which match the specified criteria.";
    for needle in ["", "INFO", "tasks", "criteria.", "criteria..", "no tasks", "x"] {
        assert_eq!(contains(&chars(hay), &chars(needle)), hay.contains(needle));
    }
}

#[test]
fn parse_decimal_reads_plain_numbers() {
    assert_eq!(parse_decimal(&chars("0")), Some(0));
    assert_eq!(parse_decimal(&chars("1234")), Some(1234));
    assert_eq!(parse_decimal(&chars("007")), Some(7));
    assert_eq!(parse_decimal(&chars("+5")), Some(5));
    assert_eq!(parse_decimal(&chars("4294967295")), Some(u32::MAX));
    assert_eq!(parse_decimal(&chars("0000000000004294967295")), Some(u32::MAX));
}

#[test]
fn parse_decimal_rejects_everything_else() {
    assert_eq!(parse_decimal(&chars("")), None);
    assert_eq!(parse_decimal(&chars("+")), None);
    assert_eq!(parse_decimal(&chars("-5")), None);
    assert_eq!(parse_decimal(&chars("++5")), None);
    assert_eq!(parse_decimal(&chars("5+")), None);
    assert_eq!(parse_decimal(&chars("12a")), None);
    assert_eq!(parse_decimal(&chars(" 12")), None);
    assert_eq!(parse_decimal(&chars("12 ")), None);
    assert_eq!(parse_decimal(&chars("1_000")), None);
    assert_eq!(parse_decimal(&chars("12\n34")), None);
    assert_eq!(parse_decimal(&chars("\u{664}")), None);
}

#[test]
fn parse_decimal_rejects_what_does_not_fit() {
    assert_eq!(parse_decimal(&chars("4294967296")), None);
    assert_eq!(parse_decimal(&chars("99999999999999999999999999")), None);
    assert_eq!(parse_decimal(&chars("42949672950")), None);
}

#[test]
fn parse_decimal_agrees_with_the_standard_parser() {
    for s in ["", "+", "-", "-0", "+0", "0", "00", "1", "+1", "4294967295", "4294967296",
        "18446744073709551616", "1.0", "1e3", "0x10", " 1", "1 ", "\u{ff11}"]
    {
        assert_eq!(parse_decimal(&chars(s)), s.parse::<u32>().ok(), "{:?}", s);
    }
}

fn all_lines(s: &str) -> Vec<String> {
    let whole = chars(s);
    let mut rest: &[char] = &whole;
    let mut lines = Vec::new();
    while let Some((line, tail)) = first_line(rest) {
        lines.push(text(line));
        rest = tail;
    }
    lines
}

#[test]
fn first_line_of_nothing_is_none() {
    assert!(first_line(&[]).is_none());
}

#[test]
fn first_line_parts_at_line_feeds() {
    assert_eq!(all_lines("a\nb"), vec!["a", "b"]);
    assert_eq!(all_lines("a\nb\n"), vec!["a", "b"]);
    assert_eq!(all_lines("\n"), vec![""]);
    assert_eq!(all_lines("a\n\nb"), vec!["a", "", "b"]);
    assert_eq!(all_lines("abc"), vec!["abc"]);
}

#[test]
fn first_line_drops_a_carriage_return_before_a_line_feed_only() {
    assert_eq!(all_lines("a\r\nb\r\n"), vec!["a", "b"]);
    assert_eq!(all_lines("a\r"), vec!["a\r"]);
    assert_eq!(all_lines("a\rb\n"), vec!["a\rb"]);
    assert_eq!(all_lines("a\r\r\n"), vec!["a\r"]);
    assert_eq!(all_lines("\r\n"), vec![""]);
}

#[test]
fn lines_agree_with_the_standard_lines() {
    for s in ["", "\n", "\r\n", "a", "a\n", "a\r\n", "a\r", "\ra\n", "a\n\r\nb", "x\r\r\ny\n\n"] {
        let expected: Vec<String> = s.lines().map(|l| l.to_string()).collect();
        assert_eq!(all_lines(s), expected, "{:?}", s);
    }
}

#[test]
fn first_line_hands_out_what_follows_the_line() {
    let whole = chars("ab\r\ncd\nef");
    let (line, rest) = first_line(&whole).unwrap();
    assert_eq!(text(line), "ab");
    assert_eq!(text(rest), "cd\nef");
    let whole = chars("ab");
    let (line, rest) = first_line(&whole).unwrap();
    assert_eq!(text(line), "ab");
    assert_eq!(text(rest), "");
    let whole = chars("\nx");
    let (line, rest) = first_line(&whole).unwrap();
    assert_eq!(text(line), "");
    assert_eq!(text(rest), "x");
}
