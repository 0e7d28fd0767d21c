use colhidor::text::{
    digit_text, is_whitespace, parse_unsigned, push_decimal, split_whitespace, trim_text, u64_text,
    IntErrorKind,
};
use colhidor::units::{Byte, EnergyUj};

#[test]
fn decimal_text_of_numbers() {
    assert_eq!(u64_text(0), "0");
    assert_eq!(u64_text(7), "7");
    assert_eq!(u64_text(1234567890), "1234567890");
    assert_eq!(u64_text(u64::MAX), u64::MAX.to_string());
    assert_eq!(digit_text(9), "9");
    let mut s = String::from("n=");
    push_decimal(&mut s, 305);
    assert_eq!(s, "n=305");
}

#[test]
fn whitespace_agrees_with_char_is_whitespace() {
    for c in [' ', '\t', '\n', '\r', '\u{0b}', '\u{0c}', '\u{85}', '\u{a0}', '\u{2003}', '\u{3000}', 'a', '0', '_'] {
        assert_eq!(is_whitespace(c), c.is_whitespace(), "{:?}", c);
    }
}

#[test]
fn split_and_trim_agree_with_str() {
    for text in ["", "   ", "a", " a  b\tc\n", "32768\t60999\n", "\u{3000}x\u{a0}y "] {
        let expected: Vec<String> = text.split_whitespace().map(|t| t.to_string()).collect();
        assert_eq!(split_whitespace(text), expected);
        assert_eq!(trim_text(text), text.trim());
    }
}

#[test]
fn parse_unsigned_matches_str_parse() {
    for text in ["0", "42", "+42", "", "+", "-1", "12a", "65535", "65536", "0065535", " 1"] {
        let expected = text.parse::<u16>().map(|v| v as u64).map_err(|e| e.to_string());
        let got = parse_unsigned(text, 65535).map_err(|k| k.description().to_string());
        assert_eq!(got, expected, "{:?}", text);
    }
}

#[test]
fn parse_error_kinds() {
    assert_eq!(parse_unsigned("", 10), Err(IntErrorKind::Empty));
    assert_eq!(parse_unsigned("x", 10), Err(IntErrorKind::InvalidDigit));
    assert_eq!(parse_unsigned("11", 10), Err(IntErrorKind::PosOverflow));
    assert_eq!(parse_unsigned("10", 10), Ok(10));
    assert_eq!(parse_unsigned("18446744073709551615", u64::MAX), Ok(u64::MAX));
    assert_eq!(parse_unsigned("18446744073709551616", u64::MAX), Err(IntErrorKind::PosOverflow));
}

#[test]
fn energy_arithmetic_saturates() {
    let mut e = EnergyUj::from_millijoules(5);
    assert_eq!(e.as_u64(), 5000);
    e.add_assign(EnergyUj::from_u64(250));
    assert_eq!(e, EnergyUj(5250));
    e.sub_assign(EnergyUj(10_000));
    assert_eq!(e, EnergyUj(0));
    let mut big = EnergyUj(u64::MAX - 1);
    big.add_assign(EnergyUj(5));
    assert_eq!(big.as_u64(), u64::MAX);
    assert_eq!(EnergyUj::default(), EnergyUj(0));
}

#[test]
fn add_then_sub_restores_without_saturation() {
    let mut e = EnergyUj(1_000);
    e.add_assign(EnergyUj(234));
    e.sub_assign(EnergyUj(234));
    assert_eq!(e, EnergyUj(1_000));
}

#[test]
fn byte_counts_add_up() {
    let mut b = Byte::from(10);
    b.add_assign(Byte(5));
    b.add_assign_u64(1);
    assert_eq!(b.as_u64(), 16);
    b.add_assign_u64(u64::MAX);
    assert_eq!(b, Byte(u64::MAX));
    assert_eq!(Byte::default(), Byte(0));
}

#[test]
fn unit_texts() {
    assert_eq!(EnergyUj(42).to_text(), "42 µJ");
    assert_eq!(Byte(1024).to_text(), "1024 B");
}
