use rlr::text::label;

#[test]
fn labels_are_decimal() {
    assert_eq!(label(0, false), "0");
    assert_eq!(label(7, false), "7");
    assert_eq!(label(10, false), "10");
    assert_eq!(label(450, false), "450");
    assert_eq!(label(1_234_567_890, false), "1234567890");
}

#[test]
fn labels_carry_the_unit() {
    assert_eq!(label(123, true), "123px");
    assert_eq!(label(246, true), "246px");
    assert_eq!(label(0, true), "0px");
}

#[test]
fn negative_labels_have_a_sign() {
    assert_eq!(label(-1, false), "-1");
    assert_eq!(label(-120, true), "-120px");
    assert_eq!(label(i64::MIN, false), "-9223372036854775808");
    assert_eq!(label(i64::MAX, false), "9223372036854775807");
}

#[test]
fn labels_agree_with_std() {
    for value in [-1001_i64, -10, -9, 9, 99, 100, 101, 65_535, 4_294_967_296] {
        assert_eq!(label(value, false), format!("{}", value));
        assert_eq!(label(value, true), format!("{}px", value));
    }
}
