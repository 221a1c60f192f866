use rustgie_types::error::ParseEnumError;
use rustgie_types::text::{format_decimal, push_decimal, str_eq};

#[test]
fn decimal_of_single_digits() {
    assert_eq!(format_decimal(0), "0");
    assert_eq!(format_decimal(7), "7");
    assert_eq!(format_decimal(9), "9");
}

#[test]
fn decimal_of_larger_numbers() {
    assert_eq!(format_decimal(10), "10");
    assert_eq!(format_decimal(100), "100");
    assert_eq!(format_decimal(1300), "1300");
    assert_eq!(format_decimal(32768), "32768");
    assert_eq!(format_decimal(1048576), "1048576");
    assert_eq!(format_decimal(u32::MAX), "4294967295");
}

#[test]
fn decimal_matches_std_formatting() {
    for n in [0u32, 1, 9, 10, 11, 99, 100, 101, 999, 1000, 65535, 65536, 123456789, u32::MAX - 1] {
        assert_eq!(format_decimal(n), n.to_string());
        assert_eq!(format_decimal(n).parse::<u32>(), Ok(n));
    }
}

#[test]
fn push_decimal_appends() {
    let mut s = String::from("value=");
    push_decimal(&mut s, 4096);
    assert_eq!(s, "value=4096");
    push_decimal(&mut s, 0);
    assert_eq!(s, "value=40960");
}

#[test]
fn str_eq_compares_characters() {
    assert!(str_eq("", ""));
    assert!(str_eq("Titan", "Titan"));
    assert!(!str_eq("Titan", "titan"));
    assert!(!str_eq("Titan", "Titans"));
    assert!(!str_eq("Titan", ""));
    assert!(str_eq("Žaltys ✓", "Žaltys ✓"));
    assert!(!str_eq("é", "e"));
}

#[test]
fn parse_error_message_quotes_the_input() {
    let e = ParseEnumError::new("Paladin", "DestinyClass");
    assert_eq!(e.input, "Paladin");
    assert_eq!(e.target, "DestinyClass");
    assert_eq!(e.message(), "Could not deserialize string 'Paladin' to DestinyClass");
    let e = ParseEnumError::new("it's", "TierType");
    assert_eq!(e.message(), "Could not deserialize string 'it's' to TierType");
}
