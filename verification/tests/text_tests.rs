use warp_terminal::text::{parse_decimal_max, to_decimal_string, to_decimal_string_i32, to_decimal_string_u128, trim};

#[test]
fn decimal_round_trip() {
    for n in [0u64, 7, 10, 1234567890, u64::MAX] {
        let s = to_decimal_string(n);
        assert_eq!(s, n.to_string());
        assert_eq!(parse_decimal_max(&s, u64::MAX), Some(n));
    }
    assert_eq!(to_decimal_string_u128(u128::MAX), u128::MAX.to_string());
    assert_eq!(to_decimal_string_i32(-42), "-42");
    assert_eq!(to_decimal_string_i32(i32::MIN), i32::MIN.to_string());
}

#[test]
fn decimal_parsing() {
    assert_eq!(parse_decimal_max("+12", 100), Some(12));
    assert_eq!(parse_decimal_max("101", 100), None);
    assert_eq!(parse_decimal_max("", 100), None);
    assert_eq!(parse_decimal_max("1a", 100), None);
    assert_eq!(parse_decimal_max("65536", 65535), None);
}

#[test]
fn trimming() {
    assert_eq!(trim("  a b \n"), "a b");
    assert_eq!(trim("\u{2003}x\u{3000}"), "x");
    assert_eq!(trim("   "), "");
}
