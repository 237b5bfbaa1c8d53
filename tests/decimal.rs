use screen_readout::decimal::{append_decimal, decimal_text};

#[test]
fn decimal_of_zero_is_one_digit() {
    assert_eq!(decimal_text(0), "0");
}

#[test]
fn decimal_of_single_digits() {
    for d in 0u32..10 {
        assert_eq!(decimal_text(d), d.to_string());
    }
}

#[test]
fn decimal_keeps_inner_zeros() {
    assert_eq!(decimal_text(10), "10");
    assert_eq!(decimal_text(1280), "1280");
    assert_eq!(decimal_text(100200), "100200");
}

#[test]
fn decimal_of_largest_value() {
    assert_eq!(decimal_text(u32::MAX), "4294967295");
}

#[test]
fn decimal_agrees_with_std_formatting() {
    for n in [1u32, 9, 11, 99, 101, 720, 1080, 65535, 999_999_999, 1_000_000_000] {
        assert_eq!(decimal_text(n), format!("{}", n));
    }
}

#[test]
fn append_decimal_extends_the_text() {
    let mut s = String::from("width ");
    append_decimal(&mut s, 2560);
    assert_eq!(s, "width 2560");
}
