use std::num::IntErrorKind;

use vpt::error::ModeErrorKind;
use vpt::octal::parse_octal_mode;

fn std_kind(text: &str) -> Result<u32, ModeErrorKind> {
    u32::from_str_radix(text, 8).map_err(|e| match e.kind() {
        IntErrorKind::Empty => ModeErrorKind::Empty,
        IntErrorKind::InvalidDigit => ModeErrorKind::InvalidDigit,
        IntErrorKind::PosOverflow => ModeErrorKind::PosOverflow,
        other => panic!("unexpected kind {:?}", other),
    })
}

#[test]
fn parses_common_modes() {
    assert_eq!(parse_octal_mode("755"), Ok(0o755));
    assert_eq!(parse_octal_mode("644"), Ok(420));
    assert_eq!(parse_octal_mode("0"), Ok(0));
    assert_eq!(parse_octal_mode("0755"), Ok(493));
    assert_eq!(parse_octal_mode("+17"), Ok(15));
    assert_eq!(parse_octal_mode("00000000000000000000755"), Ok(493));
}

#[test]
fn refuses_empty_and_lone_signs() {
    assert_eq!(parse_octal_mode(""), Err(ModeErrorKind::Empty));
    assert_eq!(parse_octal_mode("+"), Err(ModeErrorKind::InvalidDigit));
    assert_eq!(parse_octal_mode("-"), Err(ModeErrorKind::InvalidDigit));
    assert_eq!(parse_octal_mode("-1"), Err(ModeErrorKind::InvalidDigit));
    assert_eq!(parse_octal_mode("++1"), Err(ModeErrorKind::InvalidDigit));
}

#[test]
fn refuses_non_octal_digits() {
    assert_eq!(parse_octal_mode("8"), Err(ModeErrorKind::InvalidDigit));
    assert_eq!(parse_octal_mode("7a"), Err(ModeErrorKind::InvalidDigit));
    assert_eq!(parse_octal_mode(" 755"), Err(ModeErrorKind::InvalidDigit));
    assert_eq!(parse_octal_mode("7\u{0661}"), Err(ModeErrorKind::InvalidDigit));
}

#[test]
fn reports_overflow_at_the_first_failing_digit() {
    assert_eq!(parse_octal_mode("37777777777"), Ok(u32::MAX));
    assert_eq!(parse_octal_mode("40000000000"), Err(ModeErrorKind::PosOverflow));
    assert_eq!(parse_octal_mode("400000000009"), Err(ModeErrorKind::PosOverflow));
    assert_eq!(parse_octal_mode("9400000000000"), Err(ModeErrorKind::InvalidDigit));
}

#[test]
fn agrees_with_std_from_str_radix() {
    let inputs = [
        "", "+", "-", "0", "7", "8", "+0", "-0", "+755", "0755", "1777", "37777777777",
        "40000000000", "400000000009", "77777777777777", "12x", "x12", "٣", "+-1", "7 ",
    ];
    for text in inputs {
        assert_eq!(parse_octal_mode(text), std_kind(text), "input {:?}", text);
    }
}

#[test]
fn octal_rendering_parses_back() {
    for mode in [0u32, 1, 7, 8, 0o644, 0o755, 0o4755, 123_456, u32::MAX - 1, u32::MAX] {
        assert_eq!(parse_octal_mode(&format!("{:o}", mode)), Ok(mode));
    }
}
