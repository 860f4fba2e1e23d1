use librasp::text::{decimal_digits_string, decimal_string, parse_pid};

#[test]
fn decimal_string_writes_small_numbers() {
    assert_eq!(decimal_string(0), "0");
    assert_eq!(decimal_string(7), "7");
    assert_eq!(decimal_string(10), "10");
    assert_eq!(decimal_string(1234), "1234");
    assert_eq!(decimal_string(-1), "-1");
    assert_eq!(decimal_string(-4096), "-4096");
}

#[test]
fn decimal_string_writes_the_extremes() {
    assert_eq!(decimal_string(i32::MAX), "2147483647");
    assert_eq!(decimal_string(i32::MIN), "-2147483648");
}

#[test]
fn decimal_string_agrees_with_the_standard_rendering() {
    let mut i: i32 = -3000;
    while i <= 3000 {
        assert_eq!(decimal_string(i), i.to_string());
        i += 7;
    }
}

#[test]
fn decimal_digits_string_writes_naturals() {
    assert_eq!(decimal_digits_string(0), "0");
    assert_eq!(decimal_digits_string(9), "9");
    assert_eq!(decimal_digits_string(100), "100");
    assert_eq!(decimal_digits_string(u32::MAX), "4294967295");
}

#[test]
fn parse_pid_reads_digits() {
    assert_eq!(parse_pid("0"), Some(0));
    assert_eq!(parse_pid("1234"), Some(1234));
    assert_eq!(parse_pid("0001234"), Some(1234));
    assert_eq!(parse_pid("2147483647"), Some(i32::MAX));
    assert_eq!(parse_pid("00000000002147483647"), Some(i32::MAX));
}

#[test]
fn parse_pid_refuses_what_does_not_fit() {
    assert_eq!(parse_pid("2147483648"), None);
    assert_eq!(parse_pid("99999999999999999999"), None);
}

#[test]
fn parse_pid_refuses_what_is_no_digit_run() {
    assert_eq!(parse_pid(""), None);
    assert_eq!(parse_pid("12a"), None);
    assert_eq!(parse_pid("a12"), None);
    assert_eq!(parse_pid("-12"), None);
    assert_eq!(parse_pid("+12"), None);
    assert_eq!(parse_pid(" 12"), None);
    assert_eq!(parse_pid("١٢٣"), None);
}

#[test]
fn parse_pid_reads_back_what_decimal_string_wrote() {
    let mut i: i32 = 0;
    while i <= 100000 {
        assert_eq!(parse_pid(decimal_string(i).as_str()), Some(i));
        i += 331;
    }
}
