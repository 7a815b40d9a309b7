use bunt::text::{
    chars_of, cut_sentence, decimal_string, eq_ignoring_case, join, parse_unsigned, same,
    split_words, squeeze, starts_with, string_of, strip_prefix,
};

#[test]
fn decimal_of_small_and_large_numbers() {
    assert_eq!(decimal_string(0), "0");
    assert_eq!(decimal_string(9), "9");
    assert_eq!(decimal_string(10), "10");
    assert_eq!(decimal_string(87), "87");
    assert_eq!(decimal_string(18446744073709551615), "18446744073709551615");
}

#[test]
fn parse_unsigned_reads_digits_with_an_optional_plus() {
    assert_eq!(parse_unsigned("87", 65535), Some(87));
    assert_eq!(parse_unsigned("+87", 65535), Some(87));
    assert_eq!(parse_unsigned("007", 65535), Some(7));
    assert_eq!(parse_unsigned("0", 65535), Some(0));
    assert_eq!(parse_unsigned("65535", 65535), Some(65535));
}

#[test]
fn parse_unsigned_refuses_what_is_no_number() {
    assert_eq!(parse_unsigned("65536", 65535), None);
    assert_eq!(parse_unsigned("", 65535), None);
    assert_eq!(parse_unsigned("+", 65535), None);
    assert_eq!(parse_unsigned("-1", 65535), None);
    assert_eq!(parse_unsigned("8 7", 65535), None);
    assert_eq!(parse_unsigned(" 87", 65535), None);
    assert_eq!(parse_unsigned("87 ", 65535), None);
    assert_eq!(parse_unsigned("++8", 65535), None);
    assert_eq!(parse_unsigned("8.5", 65535), None);
    assert_eq!(parse_unsigned("99999999999999999999999", u64::MAX), None);
    assert_eq!(parse_unsigned("18446744073709551616", u64::MAX), None);
}

#[test]
fn parse_unsigned_agrees_with_the_standard_parser() {
    let samples = [
        "0", "1", "12", "255", "256", "+3", "-3", "", "+", "3a", "a3", "65535", "65536", "000",
        "4294967295", "18446744073709551615", "18446744073709551616", " 1", "1 ", "١",
    ];
    for s in samples {
        assert_eq!(parse_unsigned(s, 255), s.parse::<u8>().ok().map(u64::from), "u8 {s:?}");
        assert_eq!(parse_unsigned(s, 65535), s.parse::<u16>().ok().map(u64::from), "u16 {s:?}");
        assert_eq!(parse_unsigned(s, u64::MAX), s.parse::<u64>().ok(), "u64 {s:?}");
    }
}

#[test]
fn decimal_agrees_with_the_standard_formatter() {
    for n in [0u64, 5, 10, 99, 100, 101, 300, 1999, 65535, 4294967296, u64::MAX] {
        assert_eq!(decimal_string(n), n.to_string());
    }
}

#[test]
fn squeeze_joins_words_with_single_blanks() {
    assert_eq!(squeeze("Hard <br>Hit%"), "Hard <br>Hit%");
    assert_eq!(squeeze("  Arm\n <br>\t Strength "), "Arm <br> Strength");
    assert_eq!(squeeze("xwOBA /\r\n<br>xERA"), "xwOBA / <br>xERA");
    assert_eq!(squeeze(""), "");
    assert_eq!(squeeze(" \t\n"), "");
    assert_eq!(squeeze("one"), "one");
}

#[test]
fn split_words_splits_at_ascii_spaces_only() {
    let words: Vec<String> = split_words(" ~st  al\twest\u{a0}x\x0Cy ").iter().map(string_of).collect();
    assert_eq!(words, vec!["~st", "al", "west\u{a0}x", "y"]);
    assert!(split_words("").is_empty());
}

#[test]
fn join_puts_the_separator_between_parts_only() {
    let parts = vec![chars_of("a"), chars_of("bc"), chars_of("")];
    assert_eq!(join(&parts, ", "), "a, bc, ");
    assert_eq!(join(&Vec::new(), ", "), "");
    assert_eq!(join(&vec![chars_of("solo")], ", "), "solo");
}

#[test]
fn prefixes_are_found_and_taken_off() {
    assert!(starts_with("~savant 5", "~sav"));
    assert!(starts_with("~sav", "~sav"));
    assert!(!starts_with("~sa", "~sav"));
    assert!(starts_with("anything", ""));
    assert_eq!(strip_prefix("~savant acuña", "~savant "), Some("acuña".to_string()));
    assert_eq!(strip_prefix("~savant ", "~savant "), Some(String::new()));
    assert_eq!(strip_prefix("~sav x", "~savant "), None);
}

#[test]
fn comparison_ignores_the_case_of_ascii_letters_only() {
    assert!(eq_ignoring_case(&chars_of("AL"), "al"));
    assert!(eq_ignoring_case(&chars_of("American"), "american"));
    assert!(!eq_ignoring_case(&chars_of("a"), "al"));
    assert!(!eq_ignoring_case(&chars_of("É"), "é"));
    assert!(same("~help", "~help"));
    assert!(!same("~help", "~Help"));
}

#[test]
fn sentences_are_cut_before_the_first_full_stop_and_blank() {
    assert_eq!(cut_sentence("Acuna Jr. homers (3) on a fly ball. Olson scores."), "Acuna Jr");
    assert_eq!(cut_sentence("Olson singles on a line drive.  Riley to 2nd."), "Olson singles on a line drive");
    assert_eq!(cut_sentence("No stop here"), "No stop here");
    assert_eq!(cut_sentence("Ends with a stop."), "Ends with a stop.");
    assert_eq!(cut_sentence(". leading"), "");
    assert_eq!(cut_sentence(""), "");
    assert_eq!(cut_sentence("."), ".");
}

#[test]
fn words_agree_with_the_standard_splitter() {
    let samples = [
        "", " ", "a", " a", "a ", "a b", "a  b", "\ta\nb\rc\x0Cd ", "~st al west", "Hard <br>Hit%",
        "no\u{a0}break", "tab\u{b}vertical", "é è", "  many   spaces   here  ",
    ];
    for s in samples {
        let expected: Vec<String> = s.split_ascii_whitespace().map(str::to_string).collect();
        let words: Vec<String> = split_words(s).iter().map(string_of).collect();
        assert_eq!(words, expected, "{s:?}");
        assert_eq!(squeeze(s), expected.join(" "), "{s:?}");
    }
}

#[test]
fn prefixes_and_cases_agree_with_the_standard_functions() {
    let texts = ["", "~", "~sav", "~savant", "~savant 12", "~sav 12", "~SAV 12", "savant", "~sävant"];
    let prefixes = ["", "~", "~sav", "~sav ", "~savant ", "~SAV", "ä"];
    for t in texts {
        for p in prefixes {
            assert_eq!(starts_with(t, p), t.starts_with(p), "{t:?} {p:?}");
            assert_eq!(strip_prefix(t, p), t.strip_prefix(p).map(str::to_string), "{t:?} {p:?}");
            assert_eq!(eq_ignoring_case(&chars_of(t), p), t.eq_ignore_ascii_case(p), "{t:?} {p:?}");
            assert_eq!(same(t, p), t == p);
        }
    }
}

#[test]
fn sentences_agree_with_the_standard_splitter() {
    let samples = ["", ".", ". ", " .", "a. b", "a.b", "a . b. c", "no stop", "end.", "two.  blanks", "é. ü. x"];
    for s in samples {
        let expected = s.split_once(". ").map(|x| x.0).unwrap_or(s);
        assert_eq!(cut_sentence(s), expected, "{s:?}");
    }
}
