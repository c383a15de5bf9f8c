use ak500s_mac::text::{chars_of, contains_str, is_whitespace, parse_u64_str, starts_with_str, str_eq, trim_str};

#[test]
fn trims_like_std() {
    for s in ["", "  ", " a b ", "\u{3000}x\u{a0}", "\t\r\nkey\u{2028}", "x"] {
        assert_eq!(trim_str(s), s.trim());
    }
}

#[test]
fn whitespace_like_std() {
    for c in ['\t', '\n', '\u{b}', '\u{c}', '\r', ' ', '\u{85}', '\u{a0}', '\u{1680}', '\u{2000}', '\u{200a}', '\u{2028}', '\u{2029}', '\u{202f}', '\u{205f}', '\u{3000}', 'a', '\u{200b}', '\u{180e}', '0', '\u{feff}'] {
        assert_eq!(is_whitespace(c), c.is_whitespace(), "{:?}", c);
    }
}

#[test]
fn parses_like_std() {
    for s in ["0", "42", "+7", "-1", "", "+", "1_000", "18446744073709551615", "18446744073709551616", "007", " 1", "１"] {
        assert_eq!(parse_u64_str(s), s.parse::<u64>().ok(), "{:?}", s);
    }
}

#[test]
fn string_predicates() {
    assert!(str_eq("温度", "温度"));
    assert!(!str_eq("a", "ab"));
    assert!(starts_with_str("AK500S", "AK"));
    assert!(!starts_with_str("A", "AK"));
    assert!(contains_str("abc", "bc"));
    assert!(contains_str("abc", ""));
    assert!(!contains_str("abc", "cd"));
    assert_eq!(chars_of("a温b"), vec!['a', '温', 'b']);
}
