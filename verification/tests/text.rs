//! Decimal formatting and dimension parsing.

use perlin_wave::constants::SCALE;
use perlin_wave::text::{format_fixed5, parse_px, str_eq, u64_to_string};

#[test]
fn u64_to_string_digits() {
    assert_eq!(u64_to_string(0), "0");
    assert_eq!(u64_to_string(7), "7");
    assert_eq!(u64_to_string(12345), "12345");
    assert_eq!(u64_to_string(1000), "1000");
}

#[test]
fn format_five_decimals_exact() {
    assert_eq!(format_fixed5(2_000_000), "2.00000");
    assert_eq!(format_fixed5(0), "0.00000");
    assert_eq!(format_fixed5(10_000_000), "10.00000");
    assert_eq!(format_fixed5(123_456), "0.12346");
    assert_eq!(format_fixed5(123_454), "0.12345");
    assert_eq!(format_fixed5(9_999_999), "10.00000");
    assert_eq!(format_fixed5(1_500_000), "1.50000");
}

#[test]
fn parse_px_accepts_whole_pixel_counts() {
    assert_eq!(parse_px("550"), Some(550 * SCALE));
    assert_eq!(parse_px("1"), Some(SCALE));
    assert_eq!(parse_px("10000"), Some(10_000 * SCALE));
    assert_eq!(parse_px("00042"), Some(42 * SCALE));
}

#[test]
fn parse_px_rejects_out_of_range() {
    assert_eq!(parse_px("0"), None);
    assert_eq!(parse_px("10001"), None);
    assert_eq!(parse_px("99999999999999999999"), None);
}

#[test]
fn parse_px_rejects_malformed() {
    assert_eq!(parse_px(""), None);
    assert_eq!(parse_px("12a"), None);
    assert_eq!(parse_px("-5"), None);
    assert_eq!(parse_px("5.5"), None);
    assert_eq!(parse_px(" 5"), None);
}

#[test]
fn str_eq_compares_by_content() {
    assert!(str_eq("wave", "wave"));
    assert!(!str_eq("wave", "control"));
    assert!(!str_eq("wave", "wav"));
    assert!(str_eq("", ""));
}
