use ebc_hub::numbers::render_i64;
use ebc_hub::numbers::{parse_i64, parse_u16, parse_usize, IntErrorKind};
use std::num::IntErrorKind as StdKind;

fn kind_of(k: &StdKind) -> IntErrorKind {
    match k {
        StdKind::Empty => IntErrorKind::Empty,
        StdKind::InvalidDigit => IntErrorKind::InvalidDigit,
        StdKind::PosOverflow => IntErrorKind::PosOverflow,
        StdKind::NegOverflow => IntErrorKind::NegOverflow,
        _ => panic!("unexpected error kind"),
    }
}

fn samples() -> Vec<String> {
    let mut v: Vec<String> = [
        "", "+", "-", "0", "-0", "+0", "7", "+7", "-7", "42", "007", "12a", "a12", " 1", "1 ",
        "--1", "+-1", "-+1", "1_000", "١٢", "65535", "65536", "-65535", "+65535",
        "9223372036854775807", "9223372036854775808", "-9223372036854775808",
        "-9223372036854775809", "18446744073709551615", "18446744073709551616",
        "99999999999999999999x", "9223372036854775807x", "x99999999999999999999",
        "-99999999999999999999x", "00000000000000000000000000000001", "1e3", "0x10", "²",
    ]
    .iter()
    .map(|s| s.to_string())
    .collect();
    let mut seed: u64 = 0x2545F4914F6CDD1D;
    for _ in 0..3000 {
        seed ^= seed << 13;
        seed ^= seed >> 7;
        seed ^= seed << 17;
        let len = (seed % 22) as usize;
        let alphabet = ['0', '1', '5', '9', '+', '-', 'x', ' ', '6', '3'];
        let mut s = String::new();
        let mut x = seed;
        for _ in 0..len {
            s.push(alphabet[(x % alphabet.len() as u64) as usize]);
            x /= 7;
        }
        v.push(s);
    }
    v
}

#[test]
fn parse_i64_agrees_with_std() {
    for s in samples() {
        let expected = s.parse::<i64>().map_err(|e| kind_of(e.kind()));
        assert_eq!(parse_i64(&s), expected, "input {:?}", s);
    }
}

#[test]
fn parse_u16_agrees_with_std() {
    for s in samples() {
        let expected = s.parse::<u16>().map_err(|e| kind_of(e.kind()));
        assert_eq!(parse_u16(&s), expected, "input {:?}", s);
    }
}

#[test]
fn parse_usize_agrees_with_std() {
    for s in samples() {
        let expected = s.parse::<usize>().map_err(|e| kind_of(e.kind()));
        assert_eq!(parse_usize(&s), expected, "input {:?}", s);
    }
}

#[test]
fn parse_exact_values() {
    assert_eq!(parse_i64("-12"), Ok(-12));
    assert_eq!(parse_i64("+3200"), Ok(3200));
    assert_eq!(parse_i64(""), Err(IntErrorKind::Empty));
    assert_eq!(parse_i64("-"), Err(IntErrorKind::InvalidDigit));
    assert_eq!(parse_i64("9223372036854775808"), Err(IntErrorKind::PosOverflow));
    assert_eq!(parse_i64("-9223372036854775809"), Err(IntErrorKind::NegOverflow));
    assert_eq!(parse_u16("-1"), Err(IntErrorKind::InvalidDigit));
    assert_eq!(parse_u16("-0"), Err(IntErrorKind::InvalidDigit));
    assert_eq!(parse_u16("65536"), Err(IntErrorKind::PosOverflow));
    assert_eq!(parse_u16("65535"), Ok(65535));
    assert_eq!(parse_usize("+01"), Ok(1));
    assert_eq!(parse_i64("99999999999999999999x"), Err(IntErrorKind::PosOverflow));
    assert_eq!(parse_i64("9223372036854775807x"), Err(IntErrorKind::InvalidDigit));
}

#[test]
fn decimal_writings_read_back() {
    for n in [0i64, 1, 9, 10, 99, 100, 65535, 1234567890, i64::MAX] {
        assert_eq!(parse_i64(&n.to_string()), Ok(n));
        assert_eq!(parse_i64(&format!("+{n}")), Ok(n));
        assert_eq!(parse_i64(&format!("-{n}")), Ok(-n));
    }
    assert_eq!(parse_i64("-9223372036854775808"), Ok(i64::MIN));
    for n in [0u16, 7, 10, 4095, 65535] {
        assert_eq!(parse_u16(&n.to_string()), Ok(n));
        assert_eq!(parse_u16(&format!("+{n}")), Ok(n));
    }
    for n in [0usize, 1, 12, usize::MAX] {
        assert_eq!(parse_usize(&n.to_string()), Ok(n));
    }
}

#[test]
fn render_i64_agrees_with_display_and_reads_back() {
    for n in [0i64, 1, -1, 9, 10, -10, 99, 100, 1234567890, i64::MAX, i64::MIN, -9223372036854775807] {
        assert_eq!(render_i64(n), n.to_string());
        assert_eq!(parse_i64(&render_i64(n)), Ok(n));
    }
}
