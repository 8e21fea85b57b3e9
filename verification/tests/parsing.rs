use oneconfig_artifacts::parsing::{get_latest, parse_u64};

#[test]
fn numbers_are_decimal_digits_with_an_optional_plus() {
    assert_eq!(parse_u64("0"), Some(0));
    assert_eq!(parse_u64("20240131123456"), Some(20240131123456));
    assert_eq!(parse_u64("+17"), Some(17));
    assert_eq!(parse_u64("007"), Some(7));
    assert_eq!(parse_u64("18446744073709551615"), Some(u64::MAX));
}

#[test]
fn what_is_no_number_is_refused() {
    for text in ["", "+", "-1", "-0", "1 ", " 1", "1_000", "0x10", "12a", "++1", "1+", "١"] {
        assert_eq!(parse_u64(text), None, "{text}");
        assert_eq!(parse_u64(text), text.parse::<u64>().ok(), "{text}");
    }
}

#[test]
fn numbers_over_64_bits_are_refused() {
    assert_eq!(parse_u64("18446744073709551616"), None);
    assert_eq!(parse_u64("18446744073709551620"), None);
    assert_eq!(parse_u64("99999999999999999999999999"), None);
    assert_eq!(parse_u64("000000000000000000000000018446744073709551615"), Some(u64::MAX));
}

#[test]
fn numbers_are_read_as_the_standard_library_reads_them() {
    for text in ["0", "+0", "00", "42", "+42", "18446744073709551615", "18446744073709551616", "184467440737095516150"] {
        assert_eq!(parse_u64(text), text.parse::<u64>().ok(), "{text}");
    }
}

#[test]
fn latest_needs_both_texts_and_a_number() {
    assert_eq!(
        get_latest(Some("1.0.0-alpha.47"), Some("20240131123456")),
        Some(("1.0.0-alpha.47".to_string(), 20240131123456))
    );
    assert_eq!(get_latest(None, Some("20240131123456")), None);
    assert_eq!(get_latest(Some("1.0.0"), None), None);
    assert_eq!(get_latest(Some("1.0.0"), Some("yesterday")), None);
    assert_eq!(get_latest(None, None), None);
}
