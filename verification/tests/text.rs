use smash::text::{
    char_is_whitespace, chars_of, concat2, concat3, decimal_string, eq_ignore_ascii_case, equal,
    join, last_line_of, parse_u32, signed_decimal_string, trim,
};

#[test]
fn decimal_of_small_numbers() {
    assert_eq!(decimal_string(0), "0");
    assert_eq!(decimal_string(7), "7");
    assert_eq!(decimal_string(10), "10");
    assert_eq!(decimal_string(109), "109");
}

#[test]
fn decimal_of_large_numbers() {
    assert_eq!(decimal_string(4294967295), "4294967295");
    assert_eq!(decimal_string(u64::MAX), "18446744073709551615");
    assert_eq!(decimal_string(1000000), "1000000");
}

#[test]
fn decimal_matches_display() {
    let mut n: u64 = 0;
    while n < 2500 {
        assert_eq!(decimal_string(n), format!("{}", n));
        n += 1;
    }
    let mut p: u64 = 1;
    while p < u64::MAX / 7 {
        assert_eq!(decimal_string(p), format!("{}", p));
        assert_eq!(decimal_string(p - 1), format!("{}", p - 1));
        p *= 7;
    }
}

#[test]
fn signed_decimal_of_both_signs() {
    assert_eq!(signed_decimal_string(0), "0");
    assert_eq!(signed_decimal_string(1), "1");
    assert_eq!(signed_decimal_string(-1), "-1");
    assert_eq!(signed_decimal_string(255), "255");
    assert_eq!(signed_decimal_string(i32::MAX), "2147483647");
    assert_eq!(signed_decimal_string(i32::MIN), "-2147483648");
}

#[test]
fn chars_in_order() {
    let chars = chars_of("päge (1)");
    assert_eq!(chars, vec!['p', 'ä', 'g', 'e', ' ', '(', '1', ')']);
    assert_eq!(chars_of(""), Vec::<char>::new());
}

#[test]
fn concatenation_keeps_order() {
    assert_eq!(concat2("ab", "cd"), "abcd");
    assert_eq!(concat2("", ""), "");
    assert_eq!(concat3("a", "-", "b"), "a-b");
    assert_eq!(concat3("", "x", ""), "x");
}

#[test]
fn join_puts_separator_between_neighbours() {
    let none: Vec<String> = Vec::new();
    assert_eq!(join(&none, "-"), "");
    assert_eq!(join(&vec!["1".to_string()], "-"), "1");
    assert_eq!(join(&vec!["1".to_string(), "2".to_string()], "-"), "1-2");
    assert_eq!(
        join(&vec!["a".to_string(), "".to_string(), "c".to_string()], ", "),
        "a, , c"
    );
}

#[test]
fn whitespace_is_the_unicode_property() {
    let mut code: u32 = 0;
    while code <= 0x11000 {
        if let Some(c) = char::from_u32(code) {
            assert_eq!(char_is_whitespace(c), c.is_whitespace(), "code point {:#x}", code);
        }
        code += 1;
    }
}

#[test]
fn trim_removes_both_ends_only() {
    assert_eq!(trim("  12 \n"), "12");
    assert_eq!(trim("12"), "12");
    assert_eq!(trim(""), "");
    assert_eq!(trim(" \t\r\n"), "");
    assert_eq!(trim(" a b "), "a b");
    assert_eq!(trim("\u{a0}10.04.0\u{2003}"), "10.04.0");
    assert_eq!(trim("\u{200b}x"), "\u{200b}x");
}

#[test]
fn trim_matches_std() {
    let samples = [
        "", " ", "a", " a", "a ", "\n\n3\n", "\r\n", " \u{3000}x\u{1680} ", "x\u{85}",
        "GPL Ghostscript 10.04.0\n", "\t7\t",
    ];
    for s in samples {
        assert_eq!(trim(s), s.trim());
    }
}

#[test]
fn last_line_of_texts() {
    assert_eq!(last_line_of(""), "");
    assert_eq!(last_line_of("12"), "12");
    assert_eq!(last_line_of("warning\n12"), "12");
    assert_eq!(last_line_of("warning\n12\n"), "12");
    assert_eq!(last_line_of("warning\r\n12\r\n"), "12");
    assert_eq!(last_line_of("a\n\n"), "");
    assert_eq!(last_line_of("\n"), "");
    assert_eq!(last_line_of("a\r"), "a\r");
    assert_eq!(last_line_of("a\nb\r"), "b\r");
}

#[test]
fn last_line_matches_std() {
    let samples = [
        "", "x", "x\n", "x\ny", "x\ny\n", "x\r\ny\r\n", "\n", "\n\n", "\r\n", "a\r", "a\r\r\n",
        "one\ntwo\nthree", "\r",
    ];
    for s in samples {
        assert_eq!(last_line_of(s), s.lines().last().unwrap_or(s));
    }
}

#[test]
fn parse_accepts_digits_with_optional_plus() {
    assert_eq!(parse_u32("0"), Some(0));
    assert_eq!(parse_u32("12"), Some(12));
    assert_eq!(parse_u32("+12"), Some(12));
    assert_eq!(parse_u32("00012"), Some(12));
    assert_eq!(parse_u32("4294967295"), Some(4294967295));
    assert_eq!(parse_u32("+0000004294967295"), Some(4294967295));
}

#[test]
fn parse_rejects_everything_else() {
    assert_eq!(parse_u32(""), None);
    assert_eq!(parse_u32("+"), None);
    assert_eq!(parse_u32("-"), None);
    assert_eq!(parse_u32("-1"), None);
    assert_eq!(parse_u32("-0"), None);
    assert_eq!(parse_u32("++1"), None);
    assert_eq!(parse_u32(" 12"), None);
    assert_eq!(parse_u32("12 "), None);
    assert_eq!(parse_u32("1 2"), None);
    assert_eq!(parse_u32("1_000"), None);
    assert_eq!(parse_u32("12a"), None);
    assert_eq!(parse_u32("0x10"), None);
    assert_eq!(parse_u32("１２"), None);
    assert_eq!(parse_u32("4294967296"), None);
    assert_eq!(parse_u32("99999999999999999999999999"), None);
}

#[test]
fn parse_matches_std() {
    let samples = [
        "", "+", "-", "0", "+0", "-0", "7", "007", "4294967295", "4294967296", "42949672950",
        "18446744073709551616", "3.5", "3\n", "٣", "+-1", "1+",
    ];
    for s in samples {
        assert_eq!(parse_u32(s), s.parse::<u32>().ok(), "input {:?}", s);
    }
}

#[test]
fn parse_reads_back_decimal() {
    for n in [0u32, 1, 9, 10, 99, 100, 65535, 65536, 4294967294, 4294967295] {
        assert_eq!(parse_u32(&decimal_string(n as u64)), Some(n));
    }
}

#[test]
fn ascii_case_is_ignored_and_nothing_else() {
    assert!(eq_ignore_ascii_case("pdf", "pdf"));
    assert!(eq_ignore_ascii_case("PDF", "pdf"));
    assert!(eq_ignore_ascii_case("PdF", "pDf"));
    assert!(eq_ignore_ascii_case("", ""));
    assert!(!eq_ignore_ascii_case("pd", "pdf"));
    assert!(!eq_ignore_ascii_case("pdfx", "pdf"));
    assert!(!eq_ignore_ascii_case("pdg", "pdf"));
    assert!(!eq_ignore_ascii_case("ÄB", "äb"));
    assert!(!eq_ignore_ascii_case("@", "`"));
    assert!(!eq_ignore_ascii_case("[", "{"));
}

#[test]
fn equal_compares_characters() {
    assert!(equal("range", "range"));
    assert!(equal("", ""));
    assert!(!equal("range", "Range"));
    assert!(!equal("range", "rang"));
    assert!(!equal("every-n", "every_n"));
}
