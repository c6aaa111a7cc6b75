use vibrant::decimal::decimal_string;

#[test]
fn decimal_of_zero() {
    assert_eq!(decimal_string(0), "0");
}

#[test]
fn decimal_of_single_digits() {
    let digits = ["0", "1", "2", "3", "4", "5", "6", "7", "8", "9"];
    for (value, text) in digits.iter().enumerate() {
        assert_eq!(decimal_string(value as u16), *text);
    }
}

#[test]
fn decimal_of_the_selector_angles() {
    assert_eq!(decimal_string(90), "90");
    assert_eq!(decimal_string(180), "180");
    assert_eq!(decimal_string(270), "270");
    assert_eq!(decimal_string(360), "360");
}

#[test]
fn decimal_keeps_inner_and_trailing_zeros() {
    assert_eq!(decimal_string(10), "10");
    assert_eq!(decimal_string(100), "100");
    assert_eq!(decimal_string(1005), "1005");
    assert_eq!(decimal_string(60000), "60000");
}

#[test]
fn decimal_of_the_largest_value() {
    assert_eq!(decimal_string(u16::MAX), "65535");
}

#[test]
fn decimal_agrees_with_the_standard_notation() {
    for n in 0u16..=u16::MAX {
        assert_eq!(decimal_string(n), n.to_string());
    }
}
