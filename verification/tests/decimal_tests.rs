use refraction_rdp::decimal::{i32_decimal, parse_i32, u32_decimal};

#[test]
fn renders_unsigned_numbers() {
    assert_eq!(u32_decimal(0), "0");
    assert_eq!(u32_decimal(7), "7");
    assert_eq!(u32_decimal(10), "10");
    assert_eq!(u32_decimal(3919), "3919");
    assert_eq!(u32_decimal(u32::MAX), "4294967295");
}

#[test]
fn renders_signed_numbers() {
    assert_eq!(i32_decimal(0), "0");
    assert_eq!(i32_decimal(-1), "-1");
    assert_eq!(i32_decimal(255), "255");
    assert_eq!(i32_decimal(i32::MAX), "2147483647");
    assert_eq!(i32_decimal(i32::MIN), "-2147483648");
}

#[test]
fn parses_like_std() {
    let cases = [
        "", "+", "-", "0", "12", "+12", "-12", "007", "2147483647", "2147483648",
        "-2147483648", "-2147483649", "12a", " 1", "1 ", "1234\n", "+-1", "--1", "99999999999",
        "١٢",
    ];
    for c in cases {
        assert_eq!(parse_i32(c), c.parse::<i32>().ok(), "case {:?}", c);
    }
}

#[test]
fn parses_exact_values() {
    assert_eq!(parse_i32("3919"), Some(3919));
    assert_eq!(parse_i32("-2147483648"), Some(i32::MIN));
    assert_eq!(parse_i32("2147483648"), None);
    assert_eq!(parse_i32("+"), None);
    assert_eq!(parse_i32(""), None);
}

#[test]
fn rendered_numbers_read_back() {
    for n in [0, 1, -1, 42, -42, 1000, i32::MAX, i32::MIN, 123456789] {
        assert_eq!(parse_i32(&i32_decimal(n)), Some(n));
    }
}
