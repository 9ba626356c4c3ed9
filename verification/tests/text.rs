use ipscannr::text::{
    chars_of, contains_char, decimal_string, find_char, is_space_char, parse_unsigned, trim,
};

#[test]
fn chars_of_keeps_every_character() {
    assert_eq!(chars_of("a-é,1"), vec!['a', '-', 'é', ',', '1']);
    assert_eq!(chars_of(""), Vec::<char>::new());
}

#[test]
fn white_space_is_what_std_trims() {
    for n in 0u32..0x3100 {
        if let Some(c) = char::from_u32(n) {
            assert_eq!(is_space_char(c), c.is_whitespace(), "U+{:04X}", n);
        }
    }
}

#[test]
fn trim_strips_both_ends_only() {
    let v = chars_of(" \t a b \u{3000}\n");
    assert_eq!(trim(&v), &['a', ' ', 'b']);
    let v = chars_of("ab");
    assert_eq!(trim(&v), &['a', 'b']);
    let v = chars_of("  \r\n ");
    assert!(trim(&v).is_empty());
    let v = chars_of("");
    assert!(trim(&v).is_empty());
}

#[test]
fn find_char_gives_first_position_or_length() {
    let v = chars_of("a,b,c");
    assert_eq!(find_char(&v, ','), 1);
    assert_eq!(find_char(&v, 'c'), 4);
    assert_eq!(find_char(&v, 'x'), 5);
    assert!(contains_char(&v, 'b'));
    assert!(!contains_char(&v, '-'));
    assert_eq!(find_char(&[], 'a'), 0);
}

#[test]
fn parse_unsigned_follows_integer_syntax() {
    assert_eq!(parse_unsigned(&chars_of("0"), 255), Some(0));
    assert_eq!(parse_unsigned(&chars_of("255"), 255), Some(255));
    assert_eq!(parse_unsigned(&chars_of("256"), 255), None);
    assert_eq!(parse_unsigned(&chars_of("+7"), 255), Some(7));
    assert_eq!(parse_unsigned(&chars_of("0000000000000000000000007"), 255), Some(7));
    assert_eq!(parse_unsigned(&chars_of("99999999999999999999"), 65535), None);
    assert_eq!(parse_unsigned(&chars_of("65535"), 65535), Some(65535));
    assert_eq!(parse_unsigned(&chars_of("65536"), 65535), None);
    assert_eq!(parse_unsigned(&chars_of("4294967295"), u32::MAX), Some(u32::MAX));
    assert_eq!(parse_unsigned(&chars_of("4294967296"), u32::MAX), None);
    assert_eq!(parse_unsigned(&chars_of(""), 255), None);
    assert_eq!(parse_unsigned(&chars_of("+"), 255), None);
    assert_eq!(parse_unsigned(&chars_of("-1"), 255), None);
    assert_eq!(parse_unsigned(&chars_of(" 1"), 255), None);
    assert_eq!(parse_unsigned(&chars_of("1 "), 255), None);
    assert_eq!(parse_unsigned(&chars_of("++1"), 255), None);
    assert_eq!(parse_unsigned(&chars_of("١"), 255), None);
}

#[test]
fn parse_unsigned_agrees_with_std() {
    for text in ["0", "7", "+7", "007", "255", "256", "", "+", "-0", "1x", "300", "0255"] {
        assert_eq!(
            parse_unsigned(&chars_of(text), 255),
            text.parse::<u8>().ok().map(u32::from),
            "{:?}",
            text
        );
    }
}

#[test]
fn decimal_string_has_no_leading_zeros() {
    assert_eq!(decimal_string(0), "0");
    assert_eq!(decimal_string(9), "9");
    assert_eq!(decimal_string(10), "10");
    assert_eq!(decimal_string(1234567890), "1234567890");
    assert_eq!(decimal_string(u64::MAX), "18446744073709551615");
}
