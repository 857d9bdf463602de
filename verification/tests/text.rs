use aeroforge::text::{
    chars_of, decimal_string, hex_len, parse_unsigned, push_debug_option, push_hex,
    push_hex_padded, push_signed_decimal, split_chars, text_contains, text_equals, trim,
};

#[test]
fn decimal_and_hex_rendering() {
    assert_eq!(decimal_string(0), "0");
    assert_eq!(decimal_string(1_234_567), "1234567");
    assert_eq!(decimal_string(u64::MAX), "18446744073709551615");
    let mut s = String::new();
    push_hex(&mut s, 0xBEEF);
    push_hex_padded(&mut s, 0xA, 4);
    push_hex_padded(&mut s, 0x12345, 2);
    assert_eq!(s, "BEEF000A12345");
    assert_eq!(hex_len(0), 1);
    assert_eq!(hex_len(0x100), 3);
    let mut t = String::new();
    push_signed_decimal(&mut t, -42);
    push_signed_decimal(&mut t, 7);
    push_signed_decimal(&mut t, i64::MIN);
    assert_eq!(t, "-427-9223372036854775808");
    let mut d = String::new();
    push_debug_option(&mut d, Some(3));
    push_debug_option(&mut d, None);
    assert_eq!(d, "Some(3)None");
}

#[test]
fn unsigned_parsing_follows_from_str_radix() {
    assert_eq!(parse_unsigned("255", 10, 255), Some(255));
    assert_eq!(parse_unsigned("256", 10, 255), None);
    assert_eq!(parse_unsigned("+12", 10, 255), Some(12));
    assert_eq!(parse_unsigned("-1", 10, 255), None);
    assert_eq!(parse_unsigned("", 10, 255), None);
    assert_eq!(parse_unsigned("+", 10, 255), None);
    assert_eq!(parse_unsigned(" 1", 10, 255), None);
    assert_eq!(parse_unsigned("fF", 16, 255), Some(255));
    assert_eq!(parse_unsigned("1g", 16, 255), None);
    assert_eq!(parse_unsigned("0000000000000000000001", 10, 1), Some(1));
}

#[test]
fn trimming_and_searching() {
    assert_eq!(trim("\u{3000} a b \t\n"), chars_of("a b"));
    assert_eq!(trim("   "), Vec::<char>::new());
    assert!(text_contains("error: os error 2 happened", "os error 2"));
    assert!(!text_contains("os error 20", "os error 3"));
    assert!(text_contains("abc", ""));
    assert!(text_equals("ab", "ab"));
    assert!(!text_equals("ab", "abc"));
}

#[test]
fn splitting_keeps_empty_pieces() {
    let parts = split_chars(&chars_of("a,,b,"), ',');
    assert_eq!(parts, vec![chars_of("a"), vec![], chars_of("b"), vec![]]);
    assert_eq!(split_chars(&[], ','), vec![Vec::<char>::new()]);
}
