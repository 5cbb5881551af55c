use yh::failure::{Failure, FailureKind, IoStage, Malformed, Missing, Segment};
use yh::text::{find_char, parse_i32, parse_magnitude, push_decimal, push_i32};

#[test]
fn parse_i32_accepts_signed_decimals() {
    assert_eq!(parse_i32("0"), Some(0));
    assert_eq!(parse_i32("-0"), Some(0));
    assert_eq!(parse_i32("+12"), Some(12));
    assert_eq!(parse_i32("-12"), Some(-12));
    assert_eq!(parse_i32("0005"), Some(5));
    assert_eq!(parse_i32("2147483647"), Some(i32::MAX));
    assert_eq!(parse_i32("-2147483648"), Some(i32::MIN));
    assert_eq!(parse_i32("00000000000000000000000042"), Some(42));
}

#[test]
fn parse_i32_rejects_everything_else() {
    assert_eq!(parse_i32(""), None);
    assert_eq!(parse_i32("+"), None);
    assert_eq!(parse_i32("-"), None);
    assert_eq!(parse_i32("--1"), None);
    assert_eq!(parse_i32("12a"), None);
    assert_eq!(parse_i32(" 1"), None);
    assert_eq!(parse_i32("1 "), None);
    assert_eq!(parse_i32("1.0"), None);
    assert_eq!(parse_i32("\u{ff11}"), None);
    assert_eq!(parse_i32("2147483648"), None);
    assert_eq!(parse_i32("-2147483649"), None);
    assert_eq!(parse_i32("99999999999999999999999999999999"), None);
}

#[test]
fn parse_i32_agrees_with_the_standard_parser() {
    let samples = [
        "", "0", "-0", "+0", "7", "-7", "+7", "007", "12x", "x12", "-", "+", "+-1", "2147483647",
        "2147483648", "-2147483648", "-2147483649", "4294967296", "1_000", "0x10", "1e3", " 5",
    ];
    for sample in samples {
        assert_eq!(parse_i32(sample), sample.parse::<i32>().ok());
    }
}

#[test]
fn parse_magnitude_caps_large_values() {
    assert_eq!(parse_magnitude("123", 0), Some(123));
    assert_eq!(parse_magnitude("x123", 1), Some(123));
    assert_eq!(parse_magnitude("123", 3), Some(0));
    assert_eq!(parse_magnitude("2147483648", 0), Some(2147483648));
    assert_eq!(parse_magnitude("2147483649", 0), Some(2147483649));
    assert_eq!(parse_magnitude("99999999999999999999", 0), Some(2147483649));
    assert_eq!(parse_magnitude("12a", 0), None);
}

#[test]
fn find_char_gives_the_first_position_or_the_length() {
    assert_eq!(find_char("a-b-c", '-', 0), 1);
    assert_eq!(find_char("a-b-c", '-', 1), 1);
    assert_eq!(find_char("a-b-c", '-', 2), 3);
    assert_eq!(find_char("a-b-c", '-', 4), 5);
    assert_eq!(find_char("abc", '-', 0), 3);
    assert_eq!(find_char("", '-', 0), 0);
    assert_eq!(find_char("\u{756a}\u{5267}-1", '-', 0), 2);
}

#[test]
fn push_i32_writes_decimal_text() {
    for n in [0, 7, 10, 99, 100, 12345, -1, -10, i32::MAX, i32::MIN] {
        let mut out = String::from("n=");
        push_i32(&mut out, n);
        assert_eq!(out, format!("n={}", n));
    }
}

#[test]
fn push_decimal_writes_digits() {
    let mut out = String::new();
    push_decimal(&mut out, 0);
    push_decimal(&mut out, 4294967295);
    push_decimal(&mut out, 1000);
    assert_eq!(out, "042949672951000");
}

#[test]
fn rendered_numbers_parse_back() {
    for n in [0, 1, -1, 42, -42, i32::MAX, i32::MIN] {
        let mut out = String::new();
        push_i32(&mut out, n);
        assert_eq!(parse_i32(&out), Some(n));
    }
}

#[test]
fn failure_kinds_and_messages() {
    assert_eq!(Failure::Io(IoStage::Listing).kind(), FailureKind::IoError);
    assert_eq!(Failure::NotFound(Missing::Vid).kind(), FailureKind::NotFound);
    assert_eq!(Failure::Format(Segment::Show).kind(), FailureKind::FormatError);
    assert_eq!(Failure::Network.kind(), FailureKind::NetworkError);
    assert_eq!(Failure::Parse(Malformed::Descriptor).kind(), FailureKind::ParseError);
    assert_eq!(Failure::Parse(Malformed::Document).kind(), FailureKind::ParseError);
    assert_eq!(Failure::Parse(Malformed::Query).kind(), FailureKind::ParseError);
    assert_eq!(Failure::Parse(Malformed::Document).message(), "page is too long to parse");
    assert_eq!(Failure::NotFound(Missing::Playbox).message(), "no playbox");
    assert_eq!(Failure::NotFound(Missing::Vid).message(), "no VID");
    assert_eq!(Failure::NotFound(Missing::File).message(), "no file found");
    assert_ne!(
        Failure::Format(Segment::Show).message(),
        Failure::Format(Segment::Episode).message()
    );
}
