use robot_control::scalar::Scalar;

fn s(x: f64) -> Scalar {
    Scalar::from_bits(x.to_bits())
}

fn f(v: Scalar) -> f64 {
    f64::from_bits(v.to_bits())
}

const SAMPLES: [f64; 14] = [
    f64::NEG_INFINITY,
    -1e300,
    -2.5,
    -1.0,
    -f64::MIN_POSITIVE,
    -0.0,
    0.0,
    5e-324,
    f64::MIN_POSITIVE,
    1.0,
    2.5,
    1e300,
    f64::INFINITY,
    f64::NAN,
];

#[test]
fn comparisons_agree_with_the_hardware() {
    for &a in SAMPLES.iter() {
        assert_eq!(s(a).is_nan(), a.is_nan());
        assert_eq!(s(a).is_finite(), a.is_finite());
        for &b in SAMPLES.iter() {
            assert_eq!(s(a).is_less_than(s(b)), a < b, "{} < {}", a, b);
            assert_eq!(s(a).is_at_most(s(b)), a <= b, "{} <= {}", a, b);
            assert_eq!(s(a).is_greater_than(s(b)), a > b, "{} > {}", a, b);
            assert_eq!(s(a).is_at_least(s(b)), a >= b, "{} >= {}", a, b);
        }
    }
}

#[test]
fn negation_and_absolute_value_agree_with_the_hardware() {
    for &a in SAMPLES.iter() {
        assert_eq!(s(a).neg().to_bits(), (-a).to_bits());
        assert_eq!(s(a).abs().to_bits(), a.abs().to_bits());
    }
}

#[test]
fn clamp_agrees_with_the_hardware() {
    let bounds = [(-1.0, 1.0), (0.0, 0.0), (-2.5, 1e300), (f64::NEG_INFINITY, 0.0)];
    for &(lo, hi) in bounds.iter() {
        for &a in SAMPLES.iter() {
            assert_eq!(s(a).clamp(s(lo), s(hi)).to_bits(), a.clamp(lo, hi).to_bits());
        }
    }
}

#[test]
fn constants() {
    assert_eq!(f(Scalar::zero()), 0.0);
    assert_eq!(f(Scalar::infinity()), f64::INFINITY);
}
