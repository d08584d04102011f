use review_queue::text::{
    chars_of, find_char, has_prefix, is_digit, is_whitespace, parse_u64, parse_u64_range,
    skip_repeated_range, starts_with, str_ends_with, str_eq, trim, trim_range,
};

#[test]
fn whitespace_is_what_std_calls_whitespace() {
    let mut code: u32 = 0;
    while code <= 0x10FFFF {
        if let Some(c) = char::from_u32(code) {
            assert_eq!(is_whitespace(c), c.is_whitespace(), "U+{:04X}", code);
        }
        code += 1;
    }
}

#[test]
fn digits_are_the_ten_ascii_digits() {
    let mut code: u32 = 0;
    while code <= 0x10FFFF {
        if let Some(c) = char::from_u32(code) {
            assert_eq!(is_digit(c), c.is_ascii_digit(), "U+{:04X}", code);
        }
        code += 1;
    }
}

#[test]
fn chars_of_keeps_every_character() {
    assert_eq!(chars_of("a\u{e9}\u{1F600}z"), vec!['a', '\u{e9}', '\u{1F600}', 'z']);
    assert_eq!(chars_of(""), Vec::<char>::new());
}

#[test]
fn trim_takes_white_space_from_both_ends() {
    assert_eq!(trim("  a b \t\n"), "a b");
    assert_eq!(trim(""), "");
    assert_eq!(trim(" \u{3000} "), "");
    assert_eq!(trim("x"), "x");
    assert_eq!(trim("\u{a0}\u{e9}t\u{e9}\r\n"), "\u{e9}t\u{e9}");
}

#[test]
fn trim_agrees_with_std_on_samples() {
    let samples = [
        "", " ", "a", " a", "a ", "\ta\u{2003}b\u{2028}", "\u{1680}x\u{85}", "no space",
        "\n\n  - repo#1 x  \r\n", "\u{200b}zero width is kept\u{200b}",
    ];
    for s in samples {
        assert_eq!(trim(s), s.trim(), "{:?}", s);
    }
}

#[test]
fn trim_range_gives_positions_in_the_whole() {
    let s = chars_of("ab  cd  ef");
    assert_eq!(trim_range(&s, 2, 8), (4, 6));
    assert_eq!(trim_range(&s, 2, 4), (4, 4));
    assert_eq!(trim_range(&s, 0, 10), (0, 10));
    assert_eq!(trim_range(&s, 3, 3), (3, 3));
}

#[test]
fn parse_u64_reads_decimal_numbers() {
    assert_eq!(parse_u64("12"), Some(12));
    assert_eq!(parse_u64("+7"), Some(7));
    assert_eq!(parse_u64("007"), Some(7));
    assert_eq!(parse_u64("0"), Some(0));
    assert_eq!(parse_u64("18446744073709551615"), Some(u64::MAX));
    assert_eq!(parse_u64("18446744073709551616"), None);
    assert_eq!(parse_u64("99999999999999999999999"), None);
    assert_eq!(parse_u64(""), None);
    assert_eq!(parse_u64("+"), None);
    assert_eq!(parse_u64("++1"), None);
    assert_eq!(parse_u64("-1"), None);
    assert_eq!(parse_u64("1 "), None);
    assert_eq!(parse_u64(" 1"), None);
    assert_eq!(parse_u64("1_000"), None);
    assert_eq!(parse_u64("\u{661}"), None);
    assert_eq!(parse_u64("bad"), None);
}

#[test]
fn parse_u64_agrees_with_std_on_samples() {
    let samples = [
        "", "+", "-", "0", "+0", "-0", "1", "42", "0042", "18446744073709551615",
        "18446744073709551616", "28446744073709551615", "184467440737095516150", "12a", "a12",
        "1.0", "+-1", "٣", "１２",
    ];
    for s in samples {
        assert_eq!(parse_u64(s), s.parse::<u64>().ok(), "{:?}", s);
    }
}

#[test]
fn parse_u64_range_reads_a_part() {
    let s = chars_of("pr-123 x");
    assert_eq!(parse_u64_range(&s, 3, 6), Some(123));
    assert_eq!(parse_u64_range(&s, 3, 7), None);
    assert_eq!(parse_u64_range(&s, 3, 3), None);
    assert_eq!(parse_u64_range(&s, 5, 6), Some(3));
}

#[test]
fn find_char_finds_the_first() {
    let s = chars_of("a#b#c");
    assert_eq!(find_char(&s, 0, 5, '#'), Some(1));
    assert_eq!(find_char(&s, 2, 5, '#'), Some(3));
    assert_eq!(find_char(&s, 4, 5, '#'), None);
    assert_eq!(find_char(&s, 0, 1, '#'), None);
    assert_eq!(find_char(&s, 2, 2, '#'), None);
}

#[test]
fn prefixes_and_suffixes() {
    assert!(starts_with("Rollup of 3", "Rollup of"));
    assert!(starts_with("Rollup of", "Rollup of"));
    assert!(!starts_with("Rollup o", "Rollup of"));
    assert!(!starts_with("rollup of 3", "Rollup of"));
    assert!(starts_with("anything", ""));
    assert!(str_ends_with("3 pull requests", "pull requests"));
    assert!(!str_ends_with("3 pull request", "pull requests"));
    assert!(str_ends_with("x", ""));
    assert!(!str_ends_with("", "x"));
    let s = chars_of("xx- y");
    let dash = chars_of("- ");
    assert!(has_prefix(&s, 2, 5, &dash));
    assert!(!has_prefix(&s, 2, 3, &dash));
    assert!(!has_prefix(&s, 0, 5, &dash));
}

#[test]
fn repeated_prefixes_are_all_passed_over() {
    let p = chars_of("pr-");
    let s = chars_of("pr-pr-12");
    assert_eq!(skip_repeated_range(&s, 0, 8, &p), 6);
    let s = chars_of("pr-12");
    assert_eq!(skip_repeated_range(&s, 0, 5, &p), 3);
    let s = chars_of("12");
    assert_eq!(skip_repeated_range(&s, 0, 2, &p), 0);
    let s = chars_of("pr-");
    assert_eq!(skip_repeated_range(&s, 0, 3, &p), 3);
    let none = chars_of("");
    assert_eq!(skip_repeated_range(&s, 0, 3, &none), 0);
    for sample in ["pr-1", "pr-pr-pr-", "p", "xpr-1", ""] {
        let chars = chars_of(sample);
        let at = skip_repeated_range(&chars, 0, chars.len(), &p);
        let rest: String = chars[at..].iter().collect();
        assert_eq!(rest, sample.trim_start_matches("pr-"), "{:?}", sample);
    }
}

#[test]
fn str_eq_compares_characters() {
    assert!(str_eq("", ""));
    assert!(str_eq("yes", "yes"));
    assert!(!str_eq("yes", "yes "));
    assert!(!str_eq("yes", "Yes"));
    assert!(!str_eq("", "x"));
}
