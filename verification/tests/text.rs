use vibesql_mail::decimal::{parse_unsigned, push_i64};
use vibesql_mail::text::{
    contains, join, split, starts_with, str_eq, strip_prefix, trim, trim_start, utf8_len_exceeds,
    utf8_prefix,
};

#[test]
fn trim_unicode_whitespace() {
    assert_eq!(trim("  a b \t\n"), "a b");
    assert_eq!(trim("\u{3000}x\u{00A0}"), "x");
    assert_eq!(trim("   "), "");
    assert_eq!(trim(""), "");
    assert_eq!(trim_start("  -- c  "), "-- c  ");
    assert_eq!(trim("\u{200B}x"), "\u{200B}x"); // zero-width space is not White_Space
}

#[test]
fn split_keeps_empty_pieces() {
    assert_eq!(split("a,,b", ','), vec!["a", "", "b"]);
    assert_eq!(split("", ','), vec![""]);
    assert_eq!(split(",", ','), vec!["", ""]);
    assert_eq!(split("abc", ';'), vec!["abc"]);
}

#[test]
fn join_with_separator() {
    let parts = vec!["a".to_string(), "b".to_string(), "c".to_string()];
    assert_eq!(join(&parts, ", "), "a, b, c");
    assert_eq!(join(&[], ", "), "");
    assert_eq!(join(&["x".to_string()], ", "), "x");
}

#[test]
fn substring_and_prefix() {
    assert!(contains("relation \"agents\" already exists", "already exists"));
    assert!(!contains("syntax error", "already exists"));
    assert!(contains("abc", ""));
    assert!(!contains("ab", "abc"));
    assert!(starts_with("RE: hi", "RE: "));
    assert!(!starts_with("Re: hi", "RE: "));
    assert_eq!(strip_prefix("mail://inbox/BAPert", "mail://inbox/"), Some("BAPert".to_string()));
    assert_eq!(strip_prefix("mail://x", "mail://inbox/"), None);
    assert!(str_eq("é", "é"));
    assert!(!str_eq("a", "ab"));
}

#[test]
fn utf8_byte_lengths() {
    assert!(!utf8_len_exceeds("abc", 3));
    assert!(utf8_len_exceeds("abcd", 3));
    assert!(utf8_len_exceeds("é", 1)); // two bytes
    assert!(!utf8_len_exceeds("é", 2));
    assert!(utf8_len_exceeds("😀", 3)); // four bytes
    assert_eq!(utf8_prefix("héllo", 3), Some("hé".to_string()));
    assert_eq!(utf8_prefix("héllo", 2), None);
    assert_eq!(utf8_prefix("ab", 5), None);
    assert_eq!(utf8_prefix("ab", 0), Some(String::new()));
}

#[test]
fn decimal_rendering() {
    let i64_to_text = |n: i64| {
        let mut s = String::from("#");
        push_i64(&mut s, n);
        s
    };
    assert_eq!(i64_to_text(0), "#0");
    assert_eq!(i64_to_text(940), "#940");
    assert_eq!(i64_to_text(-17), "#-17");
    assert_eq!(i64_to_text(i64::MIN), "#-9223372036854775808");
    assert_eq!(i64_to_text(i64::MAX), "#9223372036854775807");
}

#[test]
fn decimal_parsing_matches_std() {
    for s in ["0", "+12", "007", "65535", "65536", "", "+", "-1", "1_0", "18446744073709551615", "18446744073709551616", "٣"] {
        assert_eq!(parse_unsigned(s, u64::MAX), s.parse::<u64>().ok(), "{s}");
        assert_eq!(parse_unsigned(s, 65535), s.parse::<u16>().ok().map(|v| v as u64), "{s}");
    }
}
