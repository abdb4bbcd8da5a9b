use clickcapture::text::{decimal_string, parse_trimmed_u32, zero_padded_string};

#[test]
fn parses_plain_and_padded_numbers() {
    assert_eq!(parse_trimmed_u32("42"), Some(42));
    assert_eq!(parse_trimmed_u32("  42 \t"), Some(42));
    assert_eq!(parse_trimmed_u32("+7"), Some(7));
    assert_eq!(parse_trimmed_u32("0007"), Some(7));
    assert_eq!(parse_trimmed_u32("\u{3000}12\u{3000}"), Some(12));
}

#[test]
fn rejects_what_u32_from_str_rejects() {
    assert_eq!(parse_trimmed_u32(""), None);
    assert_eq!(parse_trimmed_u32("   "), None);
    assert_eq!(parse_trimmed_u32("+"), None);
    assert_eq!(parse_trimmed_u32("-1"), None);
    assert_eq!(parse_trimmed_u32("-0"), None);
    assert_eq!(parse_trimmed_u32("1 2"), None);
    assert_eq!(parse_trimmed_u32("12a"), None);
    assert_eq!(parse_trimmed_u32("１２"), None);
}

#[test]
fn parse_limits() {
    assert_eq!(parse_trimmed_u32("4294967295"), Some(u32::MAX));
    assert_eq!(parse_trimmed_u32("4294967296"), None);
    assert_eq!(parse_trimmed_u32("99999999999999999999"), None);
}

#[test]
fn parse_matches_std_on_samples() {
    for s in ["", " 5", "+0", "00", "007 ", "\n9\r", "+-1", "18446744073709551616", "x"] {
        assert_eq!(parse_trimmed_u32(s), s.trim().parse::<u32>().ok(), "{:?}", s);
    }
}

#[test]
fn zero_padding() {
    assert_eq!(zero_padded_string(7, 4), "0007");
    assert_eq!(zero_padded_string(0, 4), "0000");
    assert_eq!(zero_padded_string(12345, 4), "12345");
    assert_eq!(zero_padded_string(9999, 4), "9999");
    assert_eq!(zero_padded_string(3, 0), "3");
    for n in [0u32, 1, 42, 999, 1000, 65535] {
        assert_eq!(zero_padded_string(n, 4), format!("{:04}", n));
    }
}

#[test]
fn decimal_rendering() {
    assert_eq!(decimal_string(0), "0");
    assert_eq!(decimal_string(10), "10");
    assert_eq!(decimal_string(u64::MAX), u64::MAX.to_string());
}
