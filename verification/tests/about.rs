use xrve::about::version::const_parse_to_u128;

#[test]
fn const_parse_u128_works() {
    assert_eq!(const_parse_to_u128("0"), 0);
    assert_eq!(const_parse_to_u128("123"), 123);
    assert_eq!(const_parse_to_u128("1234567890"), 1234567890);
    assert_eq!(const_parse_to_u128("123456789012345678901234567890"), 123456789012345678901234567890);
    assert_eq!(const_parse_to_u128("0000000000"), 0);
    assert_eq!(const_parse_to_u128("9876543210"), 9876543210);
}

#[test]
fn parses_the_largest_value() {
    assert_eq!(const_parse_to_u128("340282366920938463463374607431768211455"), u128::MAX);
    assert_eq!(const_parse_to_u128("0340282366920938463463374607431768211455"), u128::MAX);
    assert_eq!(const_parse_to_u128("7"), 7);
    assert_eq!(const_parse_to_u128("007"), 7);
}
