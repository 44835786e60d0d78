use rust_client::decimal::append_decimal;
use rust_client::decimal::render_decimal;

#[test]
fn zero_is_a_single_digit() {
    assert_eq!(render_decimal(0), "0");
}

#[test]
fn single_digits() {
    assert_eq!(render_decimal(1), "1");
    assert_eq!(render_decimal(7), "7");
    assert_eq!(render_decimal(9), "9");
}

#[test]
fn several_digits_most_significant_first() {
    assert_eq!(render_decimal(10), "10");
    assert_eq!(render_decimal(42), "42");
    assert_eq!(render_decimal(1203), "1203");
    assert_eq!(render_decimal(1000000), "1000000");
}

#[test]
fn negative_numbers_carry_a_minus_sign() {
    assert_eq!(render_decimal(-1), "-1");
    assert_eq!(render_decimal(-10), "-10");
    assert_eq!(render_decimal(-907), "-907");
}

#[test]
fn the_extremes_of_the_range() {
    assert_eq!(render_decimal(i32::MAX), "2147483647");
    assert_eq!(render_decimal(i32::MIN), "-2147483648");
}

#[test]
fn decimal_agrees_with_the_standard_formatting() {
    let samples: Vec<i32> = vec![
        0, 1, -1, 9, 10, 11, 99, 100, 101, -99, -100, 12345, -54321, 1 << 20, -(1 << 30),
        i32::MAX, i32::MIN, i32::MAX - 1, i32::MIN + 1,
    ];
    for n in samples {
        assert_eq!(render_decimal(n), format!("{}", n));
    }
}

#[test]
fn append_decimal_keeps_what_was_there() {
    let mut text = String::from("id=");
    append_decimal(&mut text, -35);
    assert_eq!(text, "id=-35");
    append_decimal(&mut text, 0);
    assert_eq!(text, "id=-350");
}
