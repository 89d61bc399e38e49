use core_challenges::decimal::decimal_string;

#[test]
fn numbers_are_written_in_decimal() {
    assert_eq!(decimal_string(0), "0");
    assert_eq!(decimal_string(7), "7");
    assert_eq!(decimal_string(9), "9");
    assert_eq!(decimal_string(10), "10");
    assert_eq!(decimal_string(42), "42");
    assert_eq!(decimal_string(100), "100");
    assert_eq!(decimal_string(1_000_000), "1000000");
    assert_eq!(decimal_string(u32::MAX), "4294967295");
}

#[test]
fn decimal_agrees_with_the_standard_library() {
    for n in (0..5000u32).chain([65_535, 65_536, 999_999_999, 1_000_000_000, u32::MAX - 1]) {
        assert_eq!(decimal_string(n), n.to_string());
    }
}
