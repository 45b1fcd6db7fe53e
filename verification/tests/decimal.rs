use nsfw_bot::decimal::{i64_to_decimal, parse_u64, u128_to_decimal, u16_to_decimal_padded4, u64_to_decimal};

#[test]
fn renders_unsigned_numbers() {
    assert_eq!(u64_to_decimal(0), "0");
    assert_eq!(u64_to_decimal(7), "7");
    assert_eq!(u64_to_decimal(10), "10");
    assert_eq!(u64_to_decimal(579466138992508928), "579466138992508928");
    assert_eq!(u64_to_decimal(u64::MAX), u64::MAX.to_string());
    assert_eq!(u128_to_decimal(u128::MAX), u128::MAX.to_string());
}

#[test]
fn renders_signed_numbers() {
    assert_eq!(i64_to_decimal(0), "0");
    assert_eq!(i64_to_decimal(-1), "-1");
    assert_eq!(i64_to_decimal(42), "42");
    assert_eq!(i64_to_decimal(i64::MIN), i64::MIN.to_string());
    assert_eq!(i64_to_decimal(i64::MAX), i64::MAX.to_string());
}

#[test]
fn pads_discriminators_like_format() {
    for n in [0u16, 7, 42, 123, 999, 1000, 1234, 9999, 10000, u16::MAX] {
        assert_eq!(u16_to_decimal_padded4(n), format!("{:04}", n));
    }
    assert_eq!(u16_to_decimal_padded4(7), "0007");
}

#[test]
fn parses_like_std() {
    let cases = [
        "", "+", "-", "0", "00", "+0", "+12", "-12", "12a", " 12", "12 ", "1_000", "123",
        "18446744073709551615", "18446744073709551616", "99999999999999999999", "+18446744073709551615",
        "000000000000000000000000042", "٣", "８", "2199023255551",
    ];
    for s in cases {
        assert_eq!(parse_u64(s), s.parse::<u64>().ok(), "input {:?}", s);
    }
}

#[test]
fn parse_reads_back_rendered_ids() {
    for n in [0u64, 1, 9, 10, 579466138992508928, u64::MAX] {
        assert_eq!(parse_u64(&u64_to_decimal(n)), Some(n));
    }
}
