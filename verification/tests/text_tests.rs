use hexforge_companion::text::{i64_to_decimal, parse_i32, parse_i32_or};

#[test]
fn decimal_matches_display() {
    for n in [0i64, 7, 10, 42, 99, 100, 1920, -1, -10, -1080, i64::MAX, i64::MIN, 1_000_000_007] {
        assert_eq!(i64_to_decimal(n), n.to_string());
    }
}

#[test]
fn parse_matches_std() {
    let cases = [
        "0", "42", "-42", "+42", "", "-", "+", "1920", " 1", "1 ", "12a", "2147483647", "2147483648",
        "-2147483648", "-2147483649", "00012", "-0", "+-1", "--1", "99999999999999999999", "١٢",
    ];
    for c in cases {
        assert_eq!(parse_i32(c), c.parse::<i32>().ok(), "input {:?}", c);
    }
}

#[test]
fn parse_or_default() {
    assert_eq!(parse_i32_or("640", 0), 640);
    assert_eq!(parse_i32_or("wide", 1920), 1920);
    assert_eq!(parse_i32_or("", 1080), 1080);
}
