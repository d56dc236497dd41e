use ocs_client::text::{format_balance, parse_u64, u64_to_string};

#[test]
fn decimal_rendering() {
    assert_eq!(u64_to_string(0), "0");
    assert_eq!(u64_to_string(7), "7");
    assert_eq!(u64_to_string(10), "10");
    assert_eq!(u64_to_string(1234567890), "1234567890");
    assert_eq!(u64_to_string(u64::MAX), "18446744073709551615");
}

#[test]
fn decimal_parsing() {
    assert_eq!(parse_u64("0"), Some(0));
    assert_eq!(parse_u64("42"), Some(42));
    assert_eq!(parse_u64("007"), Some(7));
    assert_eq!(parse_u64("18446744073709551615"), Some(u64::MAX));
    assert_eq!(parse_u64("18446744073709551616"), None);
    assert_eq!(parse_u64(""), None);
    assert_eq!(parse_u64("12a"), None);
    assert_eq!(parse_u64("-3"), None);
    assert_eq!(parse_u64("1.5"), None);
}

#[test]
fn parse_inverts_rendering() {
    for n in [0u64, 1, 9, 10, 99, 1000000, u64::MAX] {
        assert_eq!(parse_u64(&u64_to_string(n)), Some(n));
    }
}

#[test]
fn balance_display_scaling() {
    assert_eq!(format_balance(0), "0.000000");
    assert_eq!(format_balance(123), "0.000123");
    assert_eq!(format_balance(1_000_000), "1.000000");
    assert_eq!(format_balance(1_234_567), "1.234567");
    assert_eq!(format_balance(987_654_321_012_345), "987654321.012345");
}
