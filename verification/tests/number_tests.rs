use phalcom::number::{
    number_compare, number_equals, number_is_nan, number_is_zero, number_less, number_negate,
    CompareOp, ONE_BITS, ZERO_BITS,
};

fn samples() -> Vec<f64> {
    vec![
        0.0,
        -0.0,
        1.0,
        -1.0,
        0.1,
        -0.1,
        2.5,
        1e300,
        -1e300,
        5e-324,
        -5e-324,
        f64::MIN_POSITIVE,
        f64::MAX,
        f64::MIN,
        f64::INFINITY,
        f64::NEG_INFINITY,
        f64::NAN,
        -f64::NAN,
        f64::from_bits(0x7ff0_0000_0000_0001),
        f64::from_bits(0xfff8_0000_0000_1234),
    ]
}

#[test]
fn equality_is_that_of_doubles() {
    for a in samples() {
        for b in samples() {
            assert_eq!(number_equals(a.to_bits(), b.to_bits()), a == b, "{} == {}", a, b);
        }
    }
}

#[test]
fn order_is_that_of_doubles() {
    for a in samples() {
        for b in samples() {
            let (x, y) = (a.to_bits(), b.to_bits());
            assert_eq!(number_less(x, y), a < b, "{} < {}", a, b);
            assert_eq!(number_compare(CompareOp::Less, x, y), a < b);
            assert_eq!(number_compare(CompareOp::LessEqual, x, y), a <= b, "{} <= {}", a, b);
            assert_eq!(number_compare(CompareOp::Greater, x, y), a > b);
            assert_eq!(number_compare(CompareOp::GreaterEqual, x, y), a >= b);
        }
    }
}

#[test]
fn negation_flips_the_sign() {
    for a in samples() {
        assert_eq!(number_negate(a.to_bits()), (-a).to_bits());
        assert_eq!(number_negate(number_negate(a.to_bits())), a.to_bits());
    }
}

#[test]
fn zero_and_not_a_number_are_told_from_the_bits() {
    for a in samples() {
        assert_eq!(number_is_nan(a.to_bits()), a.is_nan());
        assert_eq!(number_is_zero(a.to_bits()), a == 0.0);
    }
    assert_eq!(ZERO_BITS, 0.0f64.to_bits());
    assert_eq!(ONE_BITS, 1.0f64.to_bits());
}
