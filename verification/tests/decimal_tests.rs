use counter::decimal::{i32_to_decimal, u32_to_decimal};

#[test]
fn renders_zero() {
    assert_eq!("0", i32_to_decimal(0));
    assert_eq!("0", u32_to_decimal(0));
}

#[test]
fn renders_positive_numbers() {
    assert_eq!("7", i32_to_decimal(7));
    assert_eq!("44", i32_to_decimal(44));
    assert_eq!("1000", u32_to_decimal(1000));
    assert_eq!("2147483647", i32_to_decimal(i32::MAX));
}

#[test]
fn renders_negative_numbers() {
    assert_eq!("-1", i32_to_decimal(-1));
    assert_eq!("-99", i32_to_decimal(-99));
    assert_eq!("-2147483648", i32_to_decimal(i32::MIN));
}
