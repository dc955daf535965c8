use rustbot::decimal::{format_u32, parse_u32};

#[test]
fn format_writes_the_shortest_decimal() {
    assert_eq!(format_u32(0), "0");
    assert_eq!(format_u32(7), "7");
    assert_eq!(format_u32(10), "10");
    assert_eq!(format_u32(905), "905");
    assert_eq!(format_u32(4294967295), "4294967295");
}

#[test]
fn format_agrees_with_the_standard_library() {
    for n in (0..5000u32).chain([65535, 65536, 999_999_999, 1_000_000_000, u32::MAX - 1, u32::MAX]) {
        assert_eq!(format_u32(n), n.to_string());
    }
}

#[test]
fn parse_reads_digits_with_an_optional_plus() {
    assert_eq!(parse_u32("0"), Some(0));
    assert_eq!(parse_u32("42"), Some(42));
    assert_eq!(parse_u32("+42"), Some(42));
    assert_eq!(parse_u32("0042"), Some(42));
    assert_eq!(parse_u32("+000"), Some(0));
    assert_eq!(parse_u32("4294967295"), Some(u32::MAX));
    assert_eq!(parse_u32("00000000004294967295"), Some(u32::MAX));
}

#[test]
fn parse_refuses_everything_else() {
    for token in [
        "", "+", "-", "-1", "-0", "++1", "+-1", "1+", " 1", "1 ", "1 2", "1_000", "1e3", "0x1f",
        "1.0", "١٢", "４２", "4294967296", "4294967300", "42949672950", "99999999999999999999999",
    ] {
        assert_eq!(parse_u32(token), None, "token {token:?}");
    }
}

#[test]
fn parse_agrees_with_the_standard_library() {
    for token in [
        "", "0", "1", "+1", "-1", "+", "007", "4294967295", "4294967296", "12a", "a12", " 12",
        "12\n", "+0", "+-0", "1234567890", "9999999999", "٣", "1\u{0}",
    ] {
        assert_eq!(parse_u32(token), token.parse::<u32>().ok(), "token {token:?}");
    }
}

#[test]
fn parse_reads_back_what_format_wrote() {
    for n in (0..3000u32).chain([u32::MAX / 10, u32::MAX / 10 + 1, u32::MAX - 1, u32::MAX]) {
        assert_eq!(parse_u32(format_u32(n).as_str()), Some(n));
    }
}
