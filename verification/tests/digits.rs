use hero_image::digits::parse_u32_decimal;
use hero_image::digits::u64_to_decimal;

#[test]
fn decimal_rendering_exact_values() {
    assert_eq!(u64_to_decimal(0), "0");
    assert_eq!(u64_to_decimal(9), "9");
    assert_eq!(u64_to_decimal(90), "90");
    assert_eq!(u64_to_decimal(31536000), "31536000");
    assert_eq!(u64_to_decimal(u64::MAX), "18446744073709551615");
}

#[test]
fn u32_parse_accepts_exactly_in_range_numerals() {
    assert_eq!(parse_u32_decimal(b"0"), Some(0));
    assert_eq!(parse_u32_decimal(b"90"), Some(90));
    assert_eq!(parse_u32_decimal(b"007"), Some(7));
    assert_eq!(parse_u32_decimal(b"4294967295"), Some(u32::MAX));
}

#[test]
fn u32_parse_rejects_everything_else() {
    assert_eq!(parse_u32_decimal(b""), None);
    assert_eq!(parse_u32_decimal(b"12a"), None);
    assert_eq!(parse_u32_decimal(b"-1"), None);
    assert_eq!(parse_u32_decimal(b" 7"), None);
    assert_eq!(parse_u32_decimal(b"4294967296"), None);
    assert_eq!(parse_u32_decimal(b"99999999999999999999"), None);
}
