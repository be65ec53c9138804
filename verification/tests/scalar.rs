use big_brain::evaluators::clamp;
use big_brain::scalar::{Scalar, INFINITY_BITS, ONE_BITS, SIGN_BIT, ZERO_BITS};

fn number(value: f32) -> Scalar {
    Scalar::from_bits(value.to_bits())
}

fn samples() -> Vec<f32> {
    vec![
        0.0,
        -0.0,
        1.0,
        -1.0,
        0.5,
        -0.5,
        0.25,
        0.3,
        0.9,
        0.99999,
        -0.99999,
        1.0e-40,
        -1.0e-40,
        f32::MIN_POSITIVE,
        f32::EPSILON,
        2.0,
        100.0,
        10000.0,
        -10000.0,
        f32::MAX,
        f32::MIN,
        f32::INFINITY,
        f32::NEG_INFINITY,
        f32::NAN,
        -f32::NAN,
    ]
}

#[test]
fn constants_are_the_bits_of_the_numbers() {
    assert_eq!(ZERO_BITS, 0.0f32.to_bits());
    assert_eq!(ONE_BITS, 1.0f32.to_bits());
    assert_eq!(INFINITY_BITS, f32::INFINITY.to_bits());
    assert_eq!(SIGN_BIT, (-0.0f32).to_bits());
    assert_eq!(Scalar::zero().to_bits(), 0.0f32.to_bits());
    assert_eq!(Scalar::one().to_bits(), 1.0f32.to_bits());
}

#[test]
fn comparisons_agree_with_the_numbers() {
    for a in samples() {
        for b in samples() {
            let (x, y) = (number(a), number(b));
            assert_eq!(x < y, a < b, "{a} < {b}");
            assert_eq!(x <= y, a <= b, "{a} <= {b}");
            assert_eq!(x > y, a > b, "{a} > {b}");
            assert_eq!(x >= y, a >= b, "{a} >= {b}");
            assert_eq!(x == y, a == b, "{a} == {b}");
            assert_eq!(x != y, a != b, "{a} != {b}");
            assert_eq!(x.partial_cmp(&y), a.partial_cmp(&b), "{a} <=> {b}");
        }
    }
}

#[test]
fn nan_and_unit_range_are_recognised() {
    for a in samples() {
        let x = number(a);
        assert_eq!(x.check_nan(), a.is_nan(), "{a}");
        assert_eq!(x.check_unit_range(), (0.0..=1.0).contains(&a), "{a}");
    }
}

#[test]
fn ordering_key_orders_like_the_numbers() {
    for a in samples() {
        for b in samples() {
            if a.is_nan() || b.is_nan() {
                continue;
            }
            let (x, y) = (number(a), number(b));
            assert_eq!(x.ordering_key() < y.ordering_key(), a < b, "{a} {b}");
            assert_eq!(x.ordering_key() == y.ordering_key(), a == b, "{a} {b}");
        }
    }
    assert_eq!(number(1.0).ordering_key(), 0x3f80_0000);
    assert_eq!(number(-1.0).ordering_key(), -0x3f80_0000);
    assert_eq!(number(-0.0).ordering_key(), 0);
}

#[test]
fn clamp_limits_to_the_range() {
    assert_eq!(clamp(5, 0, 3), 3);
    assert_eq!(clamp(-5, 0, 3), 0);
    assert_eq!(clamp(2, 0, 3), 2);
    assert_eq!(clamp(1.5f32, 0.0, 1.0), 1.0);
    assert_eq!(clamp(-0.5f32, 0.0, 1.0), 0.0);
    assert_eq!(clamp(0.25f32, 0.0, 1.0), 0.25);
    assert!(clamp(f32::NAN, 0.0, 1.0).is_nan());
}

#[test]
fn clamp_of_scalars_agrees_with_clamp_of_numbers() {
    for a in samples() {
        let limited = clamp(number(a), Scalar::zero(), Scalar::one());
        let expected = clamp(a, 0.0, 1.0);
        if expected.is_nan() {
            assert!(limited.check_nan());
        } else {
            assert_eq!(f32::from_bits(limited.to_bits()), expected, "{a}");
        }
    }
    let power = clamp(number(20000.0), number(0.0), number(10000.0));
    assert_eq!(f32::from_bits(power.to_bits()), 10000.0);
    let curvature = clamp(number(-3.0), number(-0.99999), number(0.99999));
    assert_eq!(f32::from_bits(curvature.to_bits()), -0.99999);
}
