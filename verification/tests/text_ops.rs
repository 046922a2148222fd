use tomato_novel_downloader::text::{
    bool_to_string, chars_of, eq_ignore_ascii_case, is_whitespace, join, parse_i64,
    parse_unsigned, split_lines, split_trimmed, str_contains, str_eq, to_ascii_lowercase, trim,
    trim_end, u64_to_string,
};

#[test]
fn trim_removes_unicode_whitespace_at_both_ends() {
    assert_eq!(trim("  a b \t\n"), "a b");
    assert_eq!(trim("\u{3000}слово\u{a0}"), "слово");
    assert_eq!(trim("   "), "");
    assert_eq!(trim_end("  a  "), "  a");
}

#[test]
fn whitespace_matches_std() {
    for c in ['\t', '\n', ' ', '\u{85}', '\u{a0}', '\u{1680}', '\u{2000}', '\u{200a}', '\u{2028}',
        '\u{2029}', '\u{202f}', '\u{205f}', '\u{3000}', 'a', '\u{200b}', '\u{feff}', 'я'] {
        assert_eq!(is_whitespace(c), c.is_whitespace(), "{:?}", c);
    }
}

#[test]
fn lowercase_touches_only_ascii() {
    assert_eq!(to_ascii_lowercase("TxT ÄБ"), "txt ÄБ");
    assert!(eq_ignore_ascii_case("EPUB", "epub"));
    assert!(!eq_ignore_ascii_case("Ж", "ж"));
}

#[test]
fn lines_follow_str_lines() {
    for s in ["a\n\nb\n", "", "\n", "a\r\nb", "x", "a\n\n"] {
        let ours = split_lines(s);
        let std_lines: Vec<&str> = s.split('\n').collect();
        let mut expected: Vec<String> = std_lines.iter().map(|l| l.to_string()).collect();
        if expected.last().map(|l| l.is_empty()).unwrap_or(false) {
            expected.pop();
        }
        assert_eq!(ours, expected, "{:?}", s);
        assert_eq!(ours.len(), s.lines().count(), "{:?}", s);
    }
}

#[test]
fn list_pieces_are_trimmed_and_non_empty() {
    let seps = vec![',', '\n'];
    assert_eq!(split_trimmed(" a, b,,\n c ,", &seps), vec!["a", "b", "c"]);
    assert!(split_trimmed("", &seps).is_empty());
}

#[test]
fn unsigned_parsing_follows_from_str() {
    assert_eq!(parse_unsigned("+42", u64::MAX), Some(42));
    assert_eq!(parse_unsigned("007", u64::MAX), Some(7));
    assert_eq!(parse_unsigned("-1", u64::MAX), None);
    assert_eq!(parse_unsigned("", u64::MAX), None);
    assert_eq!(parse_unsigned("+", u64::MAX), None);
    assert_eq!(parse_unsigned("4a", u64::MAX), None);
    assert_eq!(parse_unsigned(" 4", u64::MAX), None);
    assert_eq!(parse_unsigned("255", 255), Some(255));
    assert_eq!(parse_unsigned("256", 255), None);
    assert_eq!(parse_unsigned("18446744073709551615", u64::MAX), Some(u64::MAX));
    assert_eq!(parse_unsigned("18446744073709551616", u64::MAX), None);
    for s in ["0", "+0", "12", "99999999999999999999", "1_0", "٣"] {
        assert_eq!(parse_unsigned(s, u64::MAX), s.parse::<u64>().ok(), "{:?}", s);
    }
}

#[test]
fn signed_parsing_follows_from_str() {
    assert_eq!(parse_i64("-9223372036854775808"), Some(i64::MIN));
    assert_eq!(parse_i64("9223372036854775807"), Some(i64::MAX));
    assert_eq!(parse_i64("9223372036854775808"), None);
    assert_eq!(parse_i64("-9223372036854775809"), None);
    for s in ["-0", "+5", "-", "--1", "-+1", "12x", "", "-17"] {
        assert_eq!(parse_i64(s), s.parse::<i64>().ok(), "{:?}", s);
    }
}

#[test]
fn decimal_text() {
    assert_eq!(u64_to_string(0), "0");
    assert_eq!(u64_to_string(1234), "1234");
    assert_eq!(u64_to_string(u64::MAX), u64::MAX.to_string());
    assert_eq!(bool_to_string(true), "true");
    assert_eq!(bool_to_string(false), "false");
}

#[test]
fn law_decimal_roundtrip_on_values() {
    for n in [0u64, 9, 10, 99, 100, 4096, u64::MAX] {
        assert_eq!(parse_unsigned(&u64_to_string(n), u64::MAX), Some(n));
    }
}

#[test]
fn search_and_equality() {
    assert!(str_contains("blocked log.snssdk.com by AdGuard", "log.snssdk.com"));
    assert!(str_contains("abc", ""));
    assert!(!str_contains("ab", "abc"));
    assert!(str_eq("ключ", "ключ"));
    assert!(!str_eq("a", "b"));
    assert_eq!(chars_of("äb"), vec!['ä', 'b']);
    assert_eq!(join(&vec!["a".to_string(), "b".to_string()], ","), "a,b");
    assert_eq!(join(&vec![], ","), "");
}
