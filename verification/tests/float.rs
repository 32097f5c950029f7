use winit_view::float::Float;

fn float(value: f64) -> Float {
    Float { bits: value.to_bits() }
}

fn samples() -> Vec<f64> {
    vec![
        0.0,
        -0.0,
        1.0,
        -1.0,
        0.1,
        -2.5,
        1e300,
        -1e-300,
        f64::MIN_POSITIVE,
        -f64::MIN_POSITIVE,
        5e-324,
        -5e-324,
        f64::MAX,
        f64::MIN,
        f64::INFINITY,
        f64::NEG_INFINITY,
        f64::NAN,
        f64::from_bits(0x7ff0_0000_0000_0001),
        f64::from_bits(0xfff8_0000_0000_0000),
    ]
}

#[test]
fn zero_is_positive_zero() {
    assert_eq!(Float::zero().bits, 0.0f64.to_bits());
}

#[test]
fn negation_agrees_with_the_processor() {
    for value in samples() {
        assert_eq!(float(value).negated().bits, (-value).to_bits());
        assert_eq!(float(value).negated().negated(), float(value));
    }
    assert_eq!(float(1.5).negated(), float(-1.5));
}

#[test]
fn equality_agrees_with_the_processor() {
    for left in samples() {
        for right in samples() {
            assert_eq!(float(left).equals(float(right)), left == right);
        }
    }
}

#[test]
fn the_zeros_are_equal_and_a_nan_is_not() {
    assert!(float(0.0).equals(float(-0.0)));
    assert_ne!(float(0.0), float(-0.0));
    assert!(!float(f64::NAN).equals(float(f64::NAN)));
}

#[test]
fn usable_scale_factors_are_finite_and_positive() {
    for value in samples() {
        let usable =
            !value.is_nan() && value.is_finite() && value.is_sign_positive() && value > 0.0;
        assert_eq!(float(value).is_usable_scale_factor(), usable);
    }
    assert!(float(2.0).is_usable_scale_factor());
    assert!(float(5e-324).is_usable_scale_factor());
    assert!(!float(0.0).is_usable_scale_factor());
    assert!(!float(f64::INFINITY).is_usable_scale_factor());
}
