use pianke::text::{
    chars_of, contains_str, decimal_string, join_strings, parse_i32, parse_u16, split_char,
    starts_with, str_eq, trim, is_whitespace,
};

#[test]
fn trimming_matches_std() {
    for s in ["", "  ", " a ", "\tab c\r\n", "x", "\u{3000}全角\u{3000}", "a\u{a0}"] {
        assert_eq!(trim(s), s.trim(), "{:?}", s);
    }
}

#[test]
fn splitting_matches_std() {
    for s in ["", "a", "a|b", "|", "a||b|", "||"] {
        let expected: Vec<String> = s.split('|').map(|x| x.to_string()).collect();
        assert_eq!(split_char(s, '|'), expected, "{:?}", s);
    }
}

#[test]
fn split_then_join_gives_back_the_text() {
    for s in ["", "a", "a|b", "|x|", "||"] {
        assert_eq!(join_strings(&split_char(s, '|'), "|"), s);
    }
}

#[test]
fn parsing_matches_std() {
    for s in ["0", "+7", "-7", "65535", "65536", "", "+", "-", " 1", "1 ", "00012", "1_0"] {
        assert_eq!(parse_u16(s), s.parse::<u16>().ok(), "{:?}", s);
        assert_eq!(parse_i32(s), s.parse::<i32>().ok(), "{:?}", s);
    }
    assert_eq!(parse_i32("-2147483648"), Some(i32::MIN));
    assert_eq!(parse_i32("2147483648"), None);
}

#[test]
fn decimals() {
    assert_eq!(decimal_string(0), "0");
    assert_eq!(decimal_string(10), "10");
    assert_eq!(decimal_string(u64::MAX), u64::MAX.to_string());
}

#[test]
fn searching() {
    assert!(contains_str("Python 3.12.1", "3.12"));
    assert!(!contains_str("3.1", "3.12"));
    assert!(contains_str("abc", ""));
    assert!(starts_with("/home/u", "/home"));
    assert!(!starts_with("/ho", "/home"));
    assert!(str_eq("é", "é"));
    assert!(!str_eq("a", "ab"));
    assert_eq!(chars_of("a字"), vec!['a', '字']);
}

#[test]
fn whitespace_matches_std_on_every_char() {
    for u in 0u32..=0x10FFFF {
        if let Some(c) = char::from_u32(u) {
            assert_eq!(is_whitespace(c), c.is_whitespace(), "{:#x}", u);
        }
    }
}
