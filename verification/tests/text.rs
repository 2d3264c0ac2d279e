use atha::text::{
    char_is_ws, decimal_string, is_blank, join_strings, lines, pad_right_str, parse_u64, split_char,
    str_starts_with, string_lt, trim_end_str, trim_str, words,
};

fn strs(v: &[&str]) -> Vec<String> {
    v.iter().map(|s| s.to_string()).collect()
}

#[test]
fn lines_follow_str_lines() {
    for s in ["", "a", "a\n", "a\nb", "a\r\nb\r\n", "\n\n", "x\r", "a\n\nb\n"] {
        let expected: Vec<String> = s.lines().map(|l| l.to_string()).collect();
        assert_eq!(lines(s), expected, "text = {s:?}");
    }
}

#[test]
fn words_follow_split_whitespace() {
    for s in ["", "  ", "a b", "  linux 6.1-1 -> 6.2-1  ", "a\tb\nc", "x\u{3000}y"] {
        let expected: Vec<String> = s.split_whitespace().map(|l| l.to_string()).collect();
        assert_eq!(words(s), expected, "text = {s:?}");
    }
}

#[test]
fn trimming() {
    assert_eq!(trim_str("  a b \n"), "a b");
    assert_eq!(trim_end_str("  a b \n"), "  a b");
    assert!(is_blank(" \t\n"));
    assert!(!is_blank(" x "));
}

#[test]
fn splitting_on_a_character() {
    assert_eq!(split_char("a|b||c", '|'), strs(&["a", "b", "", "c"]));
    assert_eq!(split_char("", '|'), strs(&[""]));
}

#[test]
fn parsing_numbers() {
    assert_eq!(parse_u64("42"), Some(42));
    assert_eq!(parse_u64("+7"), Some(7));
    assert_eq!(parse_u64("18446744073709551615"), Some(u64::MAX));
    assert_eq!(parse_u64("18446744073709551616"), None);
    assert_eq!(parse_u64(""), None);
    assert_eq!(parse_u64("+"), None);
    assert_eq!(parse_u64("-1"), None);
    assert_eq!(parse_u64("1 2"), None);
}

#[test]
fn decimal_numbers() {
    assert_eq!(decimal_string(0), "0");
    assert_eq!(decimal_string(1234567890), "1234567890");
}

#[test]
fn padding() {
    assert_eq!(pad_right_str("ab", 5), "ab   ");
    assert_eq!(pad_right_str("abcdef", 3), "abcdef");
}

#[test]
fn ordering_and_prefixes() {
    assert!(string_lt("install", "remove"));
    assert!(string_lt("a", "ab"));
    assert!(!string_lt("b", "a"));
    assert!(!string_lt("a", "a"));
    assert!(str_starts_with("Installed Size : 3 MiB", "Installed Size"));
    assert!(!str_starts_with("Install", "Installed"));
}

#[test]
fn joining_strings() {
    assert_eq!(join_strings(&strs(&["a", "b", "c"]), " "), "a b c");
    assert_eq!(join_strings(&strs(&[]), " "), "");
}

#[test]
fn whitespace_matches_char_is_whitespace() {
    for u in 0u32..=0x10FFFF {
        if let Some(c) = char::from_u32(u) {
            assert_eq!(char_is_ws(c), c.is_whitespace(), "char U+{u:04X}");
        }
    }
}

#[test]
fn trimming_matches_str_trim() {
    for s in ["", " ", "\u{2003}a b\u{85}", "\t\nx\r\n", "\u{a0}y\u{3000}", "no-space"] {
        assert_eq!(trim_str(s), s.trim(), "text = {s:?}");
        assert_eq!(trim_end_str(s), s.trim_end(), "text = {s:?}");
        assert_eq!(is_blank(s), s.trim().is_empty(), "text = {s:?}");
    }
}

#[test]
fn parsing_matches_str_parse() {
    for s in ["0", "007", "+0", "++1", "1_000", " 1", "1 ", "99999999999999999999", "٣", "12a", "-0"] {
        assert_eq!(parse_u64(s), s.parse::<u64>().ok(), "text = {s:?}");
    }
}
