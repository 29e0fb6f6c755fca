use rs_crtsh::text::decimal_string;

#[test]
fn decimal_string_writes_numbers_as_std_does() {
    for n in [0u64, 1, 7, 9, 10, 11, 99, 100, 101, 408, 429, 500, 599, 65535, 1_000_000_007, u64::MAX] {
        assert_eq!(decimal_string(n), n.to_string());
    }
}

#[test]
fn decimal_string_has_no_leading_zero() {
    assert_eq!(decimal_string(0), "0");
    assert_eq!(decimal_string(10), "10");
    assert_eq!(decimal_string(1000), "1000");
    assert_eq!(decimal_string(18_446_744_073_709_551_615), "18446744073709551615");
}
