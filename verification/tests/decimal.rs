use policy_engine::decimal::u64_to_dec_string;

#[test]
fn renders_zero() {
    assert_eq!(u64_to_dec_string(0), "0");
}

#[test]
fn renders_single_digit() {
    assert_eq!(u64_to_dec_string(7), "7");
}

#[test]
fn renders_multiple_digits() {
    assert_eq!(u64_to_dec_string(900), "900");
    assert_eq!(u64_to_dec_string(105), "105");
}

#[test]
fn renders_largest_value() {
    assert_eq!(u64_to_dec_string(u64::MAX), "18446744073709551615");
}
