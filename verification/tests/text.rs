use streamchat::text::{
    concat_str, equals, lines, parse_u64, split, split_once, split_once_str, starts_with, trim,
    trim_start,
};

#[test]
fn split_keeps_empty_pieces() {
    let parts = split("a,,b,", ',');
    assert_eq!(parts, vec!["a", "", "b", ""]);
    assert_eq!(split("", ','), vec![""]);
}

#[test]
fn lines_follow_str_lines() {
    for text in ["", "a", "a\n", "a\r\nb", "a\n\nb\n", "\n", "x\r", "x\r\n\r\n"] {
        let expected: Vec<String> = text.lines().map(String::from).collect();
        assert_eq!(lines(text), expected, "text={:?}", text);
    }
}

#[test]
fn split_once_takes_the_first_separator() {
    assert_eq!(split_once("open stream: a:b", ':'), ("open stream".to_string(), Some(" a:b".to_string())));
    assert_eq!(split_once("quit", ':'), ("quit".to_string(), None));
    assert_eq!(
        split_once_str("file://a://b", "://"),
        ("file".to_string(), Some("a://b".to_string()))
    );
    assert_eq!(split_once_str("no-protocol", "://"), ("no-protocol".to_string(), None));
}

#[test]
fn parse_u64_follows_std() {
    for text in ["0", "+7", "42", "18446744073709551615", "18446744073709551616", "", "+", "-1", " 1", "1a", "007"] {
        assert_eq!(parse_u64(text), text.parse::<u64>().ok(), "text={:?}", text);
    }
}

#[test]
fn trimming_uses_unicode_white_space() {
    assert_eq!(trim("  hi there \t\n"), "hi there");
    assert_eq!(trim_start("\u{3000} hi "), "hi ");
    assert_eq!(trim("   "), "");
    assert_eq!(trim("\u{a0}x\u{2003}"), "x");
}

#[test]
fn small_helpers() {
    assert!(starts_with("open stream", "open"));
    assert!(!starts_with("quit", "open"));
    assert!(starts_with("x", ""));
    assert!(equals("abc", "abc"));
    assert!(!equals("abc", "abd"));
    assert_eq!(concat_str("ab", "cd"), "abcd");
}

#[test]
fn white_space_is_the_unicode_set() {
    let listed = |u: u32| {
        (0x9..=0xd).contains(&u)
            || [0x20, 0x85, 0xa0, 0x1680, 0x2028, 0x2029, 0x202f, 0x205f, 0x3000].contains(&u)
            || (0x2000..=0x200a).contains(&u)
    };
    for c in (0u32..=0x10ffff).filter_map(char::from_u32) {
        let text = format!("{}x{}", c, c);
        let expected = if listed(c as u32) { "x".to_string() } else { text.clone() };
        assert_eq!(trim(&text), expected, "char U+{:04X}", c as u32);
    }
}

#[test]
fn trimming_agrees_with_std_whitespace() {
    for u in 0u32..0x3100 {
        if let Some(c) = char::from_u32(u) {
            let s = format!("{c}x{c}");
            assert_eq!(trim(&s), s.trim(), "code point {:#x}", u);
            assert_eq!(trim_start(&s), s.trim_start(), "code point {:#x}", u);
        }
    }
}
