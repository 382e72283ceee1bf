use market_pipeline::digits::parse_price;

#[test]
fn whole_and_fractional_prices_parse() {
    assert_eq!(parse_price("0.605"), Some(605_000));
    assert_eq!(parse_price("0.6"), Some(600_000));
    assert_eq!(parse_price("1"), Some(1_000_000));
    assert_eq!(parse_price("12.000001"), Some(12_000_001));
    assert_eq!(parse_price("0.000001"), Some(1));
    assert_eq!(parse_price("000.5"), Some(500_000));
    assert_eq!(parse_price("0"), Some(0));
}

#[test]
fn malformed_prices_are_rejected() {
    assert_eq!(parse_price(""), None);
    assert_eq!(parse_price("."), None);
    assert_eq!(parse_price(".5"), None);
    assert_eq!(parse_price("1."), None);
    assert_eq!(parse_price("1.2345678"), None);
    assert_eq!(parse_price("1.2.3"), None);
    assert_eq!(parse_price("abc"), None);
    assert_eq!(parse_price("1e3"), None);
    assert_eq!(parse_price("-1"), None);
    assert_eq!(parse_price(" 1"), None);
}

#[test]
fn prices_too_large_to_represent_are_rejected() {
    // 2^64 - 1 scaled by a million does not fit
    assert_eq!(parse_price("18446744073709551615"), None);
    // the largest representable value does
    assert_eq!(parse_price("18446744073709.551615"), Some(u64::MAX));
    assert_eq!(parse_price("18446744073709.551616"), None);
}
