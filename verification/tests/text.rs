use api_gateway::clock::cap_millis;
use api_gateway::text::{contains_char, decimal_string, is_blank, is_whitespace, push_decimal};

#[test]
fn decimal_of_small_and_large_numbers() {
    assert_eq!(decimal_string(0), "0");
    assert_eq!(decimal_string(7), "7");
    assert_eq!(decimal_string(10), "10");
    assert_eq!(decimal_string(8080), "8080");
    assert_eq!(decimal_string(u64::MAX as u128), "18446744073709551615");
    assert_eq!(
        decimal_string(u128::MAX),
        "340282366920938463463374607431768211455"
    );
}

#[test]
fn push_decimal_appends() {
    let mut out = String::from("n=");
    push_decimal(&mut out, 1205);
    assert_eq!(out, "n=1205");
}

#[test]
fn whitespace_agrees_with_std_on_every_char() {
    let mut code: u32 = 0;
    while code <= 0x10FFFF {
        if let Some(c) = char::from_u32(code) {
            assert_eq!(is_whitespace(c), c.is_whitespace(), "code point {}", code);
        }
        code += 1;
    }
}

#[test]
fn blank_means_empty_after_trimming() {
    for s in ["", " ", "\t\n ", "\u{3000}", " a ", "a", "\u{200B}"] {
        assert_eq!(is_blank(s), s.trim().is_empty(), "text {:?}", s);
    }
}

#[test]
fn contains_char_finds_single_characters() {
    assert!(contains_char("a@b.c", '@'));
    assert!(contains_char("a@b.c", '.'));
    assert!(!contains_char("ab", '@'));
    assert!(!contains_char("", '.'));
    assert!(contains_char("naïve", 'ï'));
}

#[test]
fn milliseconds_are_capped_at_64_bits() {
    assert_eq!(cap_millis(0), 0);
    assert_eq!(cap_millis(1234), 1234);
    assert_eq!(cap_millis(u64::MAX as u128), u64::MAX);
    assert_eq!(cap_millis(u64::MAX as u128 + 1), u64::MAX);
    assert_eq!(cap_millis(u128::MAX), u64::MAX);
}
