use rbar::fmt::{
    decimal_string, digit_str, four_digit_string, percent_string, two_digit_string,
    year_string, year_two_string,
};

#[test]
fn digit_strings() {
    assert_eq!(digit_str(0), "0");
    assert_eq!(digit_str(7), "7");
    assert_eq!(digit_str(9), "9");
}

#[test]
fn decimal_strings() {
    assert_eq!(decimal_string(0), "0");
    assert_eq!(decimal_string(7), "7");
    assert_eq!(decimal_string(255), "255");
    assert_eq!(decimal_string(1000000), "1000000");
}

#[test]
fn two_digit_zero_padding() {
    assert_eq!(two_digit_string(0), "00");
    assert_eq!(two_digit_string(5), "05");
    assert_eq!(two_digit_string(59), "59");
}

#[test]
fn four_digit_zero_padding() {
    assert_eq!(four_digit_string(7), "0007");
    assert_eq!(four_digit_string(2026), "2026");
    assert_eq!(four_digit_string(9999), "9999");
}

#[test]
fn year_strings() {
    assert_eq!(year_string(2026), "2026");
    assert_eq!(year_string(33), "0033");
    assert_eq!(year_string(12345), "12345");
    assert_eq!(year_string(0), "0000");
    assert_eq!(year_string(-5), "-0005");
}

#[test]
fn year_two_digit_strings() {
    assert_eq!(year_two_string(2026), "26");
    assert_eq!(year_two_string(2000), "00");
    assert_eq!(year_two_string(7), "07");
    assert_eq!(year_two_string(-1), "99");
}

#[test]
fn percent_labels() {
    assert_eq!(percent_string(0), " 0%");
    assert_eq!(percent_string(55), " 55%");
    assert_eq!(percent_string(100), " 100%");
}
