use open_strike::credentials::{now, token};
use open_strike::text::{
    ascii_alnum, contains_str, control_char, decimal, has_char, keep_identifier_chars, parse_bounded, str_eq,
    take_chars, trim, trim_trailing_slashes, utf8_len_below, white_space,
};

#[test]
fn trimming_and_case() {
    assert_eq!(trim("  a b \t\n"), "a b");
    assert_eq!(trim("   "), "");
    assert_eq!(take_chars("héllo", 2), "hé");
    assert_eq!(take_chars("hi", 5), "hi");
    assert_eq!(keep_identifier_chars("a-b_c 9!"), "ab_c9");
    assert_eq!(trim_trailing_slashes("http://hub///"), "http://hub");
    assert_eq!(trim_trailing_slashes("///"), "");
    assert_eq!(trim_trailing_slashes("a/b"), "a/b");
}

#[test]
fn characters() {
    assert!(white_space(' ') && white_space('\u{3000}'));
    assert!(!white_space('x'));
    assert!(ascii_alnum('Z') && ascii_alnum('7'));
    assert!(!ascii_alnum('é'));
    assert!(control_char('\u{7}') && control_char('\u{85}'));
    assert!(!control_char('a'));
    assert!(str_eq("abc", "abc") && !str_eq("abc", "abd"));
    assert!(contains_str("password", "swo"));
    assert!(contains_str("abc", ""));
    assert!(!contains_str("abc", "abcd"));
    assert!(has_char("a@b", '@'));
    assert!(utf8_len_below("éé", 5));
    assert!(!utf8_len_below("ééé", 5));
}

#[test]
fn numbers() {
    assert_eq!(parse_bounded("27015", 65535), Some(27015));
    assert_eq!(parse_bounded("65536", 65535), None);
    assert_eq!(parse_bounded("", 10), None);
    assert_eq!(parse_bounded("+1", 10), Some(1));
    assert_eq!(parse_bounded("1a", 10), None);
    assert_eq!(parse_bounded("18446744073709551615", u64::MAX), Some(u64::MAX));
    assert_eq!(parse_bounded("18446744073709551616", u64::MAX), None);
    assert_eq!(decimal(0), "0");
    assert_eq!(decimal(27015), "27015");
    assert_eq!(decimal(u64::MAX), "18446744073709551615");
}

#[test]
fn tokens_are_fresh_hex() {
    let a = token();
    let b = token();
    assert_eq!(a.len(), 64);
    assert!(a.chars().all(|c| c.is_ascii_hexdigit() && !c.is_ascii_uppercase()));
    assert_ne!(a, b);
    assert!(now() > 1_600_000_000);
}
