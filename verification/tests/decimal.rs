use stretch_backend::decimal::push_decimal;

fn written(n: u64) -> String {
    let mut text = String::new();
    push_decimal(&mut text, n);
    text
}

#[test]
fn decimal_of_zero_is_one_digit() {
    assert_eq!(written(0), "0");
}

#[test]
fn decimal_of_single_digits() {
    assert_eq!(written(1), "1");
    assert_eq!(written(7), "7");
    assert_eq!(written(9), "9");
}

#[test]
fn decimal_has_no_leading_zero_and_keeps_inner_zeros() {
    assert_eq!(written(10), "10");
    assert_eq!(written(100), "100");
    assert_eq!(written(404), "404");
    assert_eq!(written(500), "500");
    assert_eq!(written(1_000_000), "1000000");
    assert_eq!(written(1234567890), "1234567890");
}

#[test]
fn decimal_of_the_largest_number() {
    assert_eq!(written(u64::MAX), "18446744073709551615");
    assert_eq!(written(65_535), "65535");
}

#[test]
fn decimal_is_appended_to_what_is_there() {
    let mut text = String::from("status ");
    push_decimal(&mut text, 302);
    assert_eq!(text, "status 302");
    push_decimal(&mut text, 0);
    assert_eq!(text, "status 3020");
}

#[test]
fn decimal_agrees_with_the_standard_rendering() {
    let mut n: u64 = 0;
    while n < 3_000 {
        assert_eq!(written(n), format!("{}", n));
        n += 1;
    }
}
