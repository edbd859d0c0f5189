use wmctrl::decimal::{
    append_decimal, append_decimal_nat, digit_of, digit_text, parse_i32, parse_magnitude,
};

fn text_of(n: i64) -> String {
    let mut out = String::new();
    append_decimal(&mut out, n);
    out
}

fn text_of_nat(n: u64) -> String {
    let mut out = String::new();
    append_decimal_nat(&mut out, n);
    out
}

#[test]
fn every_digit_has_its_character() {
    let digits: Vec<&str> = (0..10u64).map(digit_text).collect();
    assert_eq!(digits, vec!["0", "1", "2", "3", "4", "5", "6", "7", "8", "9"]);
}

#[test]
fn zero_is_a_single_digit() {
    assert_eq!(text_of(0), "0");
    assert_eq!(text_of_nat(0), "0");
}

#[test]
fn digits_come_most_significant_first() {
    assert_eq!(text_of_nat(9), "9");
    assert_eq!(text_of_nat(10), "10");
    assert_eq!(text_of_nat(1053), "1053");
    assert_eq!(text_of_nat(u64::MAX), "18446744073709551615");
}

#[test]
fn negative_numbers_carry_a_sign() {
    assert_eq!(text_of(-1), "-1");
    assert_eq!(text_of(-960), "-960");
    assert_eq!(text_of(i64::MAX), "9223372036854775807");
    assert_eq!(text_of(i64::MIN), "-9223372036854775808");
}

#[test]
fn appending_keeps_what_was_there() {
    let mut out = String::from("x=");
    append_decimal(&mut out, -27);
    out.push_str(",y=");
    append_decimal_nat(&mut out, 3840);
    assert_eq!(out, "x=-27,y=3840");
}

#[test]
fn decimal_text_agrees_with_the_standard_formatting() {
    for n in [-100_000i64, -99, -10, -9, 0, 7, 10, 99, 100, 101, 65_535, 2_147_483_647] {
        assert_eq!(text_of(n), format!("{}", n));
    }
}

#[test]
fn only_decimal_digits_have_a_value() {
    let values: Vec<Option<u64>> = "0123456789".chars().map(digit_of).collect();
    assert_eq!(values, (0..10u64).map(Some).collect::<Vec<_>>());
    assert_eq!(digit_of('a'), None);
    assert_eq!(digit_of('-'), None);
    assert_eq!(digit_of(' '), None);
    assert_eq!(digit_of('\u{663}'), None);
}

#[test]
fn a_run_of_digits_has_its_number() {
    assert_eq!(parse_magnitude("0", 0, 10), Some(0));
    assert_eq!(parse_magnitude("1053", 0, 5000), Some(1053));
    assert_eq!(parse_magnitude("x=1053", 2, 5000), Some(1053));
    assert_eq!(parse_magnitude("007", 0, 7), Some(7));
}

#[test]
fn a_run_of_digits_is_held_to_its_limit() {
    assert_eq!(parse_magnitude("5000", 0, 5000), Some(5000));
    assert_eq!(parse_magnitude("5001", 0, 5000), None);
    assert_eq!(parse_magnitude("99999999999999999999999999", 0, u64::MAX), None);
    assert_eq!(parse_magnitude("18446744073709551615", 0, u64::MAX), Some(u64::MAX));
    assert_eq!(parse_magnitude("18446744073709551616", 0, u64::MAX), None);
    assert_eq!(parse_magnitude("18446744073709551615", 0, u64::MAX - 1), None);
    assert_eq!(parse_magnitude("9", 0, 0), None);
    assert_eq!(parse_magnitude("00", 0, 0), Some(0));
    assert_eq!(parse_magnitude("00000000000000000000000042", 0, 42), Some(42));
}

#[test]
fn nothing_and_other_characters_are_no_number() {
    assert_eq!(parse_magnitude("", 0, 10), None);
    assert_eq!(parse_magnitude("12", 2, 10), None);
    assert_eq!(parse_magnitude("1a", 0, 10), None);
    assert_eq!(parse_magnitude("-1", 0, 10), None);
    assert_eq!(parse_magnitude("99999999999999999999999999x", 0, 10), None);
}

#[test]
fn integers_are_read_with_their_sign() {
    assert_eq!(parse_i32("0"), Some(0));
    assert_eq!(parse_i32("-0"), Some(0));
    assert_eq!(parse_i32("960"), Some(960));
    assert_eq!(parse_i32("-27"), Some(-27));
    assert_eq!(parse_i32("2147483647"), Some(i32::MAX));
    assert_eq!(parse_i32("-2147483648"), Some(i32::MIN));
}

#[test]
fn integers_out_of_range_or_malformed_are_refused() {
    assert_eq!(parse_i32("2147483648"), None);
    assert_eq!(parse_i32("-2147483649"), None);
    assert_eq!(parse_i32(""), None);
    assert_eq!(parse_i32("-"), None);
    assert_eq!(parse_i32("--1"), None);
    assert_eq!(parse_i32("+1"), None);
    assert_eq!(parse_i32("1 "), None);
    assert_eq!(parse_i32("0x10"), None);
}

#[test]
fn reading_the_text_of_an_integer_gives_it_back() {
    for n in [i32::MIN, -65_536, -10, -1, 0, 1, 9, 10, 11, 540, 1920, i32::MAX] {
        assert_eq!(parse_i32(&text_of(i64::from(n))), Some(n));
    }
}
