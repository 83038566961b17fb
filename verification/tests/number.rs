use kestrl::number::Number;

fn number(value: f64) -> Number {
    Number::from_bits(value.to_bits())
}

fn samples() -> Vec<f64> {
    let mut values = vec![
        0.0,
        -0.0,
        1.0,
        -1.0,
        0.1,
        -0.1,
        2.5,
        1e308,
        -1e308,
        f64::MIN_POSITIVE,
        -f64::MIN_POSITIVE,
        5e-324,
        -5e-324,
        f64::MAX,
        f64::MIN,
        f64::INFINITY,
        f64::NEG_INFINITY,
        f64::NAN,
        -f64::NAN,
        f64::EPSILON,
        9007199254740993.0,
    ];
    values.push(f64::from_bits(0x7ff0_0000_0000_0001));
    values.push(f64::from_bits(0xfff8_0000_0000_0000));
    values.push(f64::from_bits(0xffff_ffff_ffff_ffff));
    values
}

#[test]
fn encoding_round_trips() {
    assert_eq!(Number::from_bits(0x4022_0000_0000_0000).to_bits(), 9.0f64.to_bits());
    assert_eq!(number(9.0).bits, 0x4022_0000_0000_0000);
}

#[test]
fn classification_agrees_with_hardware() {
    for value in samples() {
        assert_eq!(number(value).is_nan(), value.is_nan(), "{:?}", value);
        assert_eq!(number(value).is_zero(), value == 0.0, "{:?}", value);
    }
}

#[test]
fn comparison_agrees_with_hardware() {
    for a in samples() {
        for b in samples() {
            assert_eq!(number(a).is_equal_to(number(b)), a == b, "{:?} == {:?}", a, b);
            assert_eq!(number(a) == number(b), a == b, "{:?} == {:?}", a, b);
            assert_eq!(number(a).is_less_than(number(b)), a < b, "{:?} < {:?}", a, b);
            assert_eq!(number(a).is_at_most(number(b)), a <= b, "{:?} <= {:?}", a, b);
        }
    }
}

#[test]
fn negation_agrees_with_hardware() {
    for value in samples() {
        assert_eq!(number(value).negate().to_bits(), (-value).to_bits(), "{:?}", value);
    }
}

#[test]
fn zeros_are_equal_and_nan_equals_nothing() {
    assert!(number(0.0).is_equal_to(number(-0.0)));
    assert!(!number(0.0).is_less_than(number(-0.0)));
    assert!(!number(-0.0).is_less_than(number(0.0)));
    assert!(!number(f64::NAN).is_equal_to(number(f64::NAN)));
    assert!(!number(f64::NAN).is_at_most(number(f64::NAN)));
}
