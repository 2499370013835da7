//! The bit-pattern order agrees with the floating-point comparisons.

use hmm_core::bits::{
    float_abs, float_is_nan, float_le, float_lt, INFINITY_MAGNITUDE, NEG_INFINITY_BITS,
    POS_ZERO_BITS, SIGN_BIT,
};
use hmm_core::model::{MIN_ACCUMULATED_WEIGHT_BITS, VARIANCE_FLOOR_BITS};

fn sample_values() -> Vec<f64> {
    vec![
        0.0,
        -0.0,
        1.0,
        -1.0,
        0.5,
        -0.5,
        1e-6,
        -1e-6,
        1e-300,
        -1e-300,
        5e-324,
        -5e-324,
        1e300,
        -1e300,
        f64::MAX,
        f64::MIN,
        f64::INFINITY,
        f64::NEG_INFINITY,
        std::f64::consts::PI,
        -std::f64::consts::PI,
    ]
}

#[test]
fn constants_match_their_values() {
    assert_eq!(SIGN_BIT, (-0.0f64).to_bits());
    assert_eq!(INFINITY_MAGNITUDE, f64::INFINITY.to_bits());
    assert_eq!(NEG_INFINITY_BITS, f64::NEG_INFINITY.to_bits());
    assert_eq!(POS_ZERO_BITS, 0.0f64.to_bits());
    assert_eq!(VARIANCE_FLOOR_BITS, 1e-6f64.to_bits());
    assert_eq!(MIN_ACCUMULATED_WEIGHT_BITS, 1e-10f64.to_bits());
}

#[test]
fn order_agrees_with_float_comparisons() {
    let values = sample_values();
    for &a in &values {
        for &b in &values {
            assert_eq!(float_lt(a.to_bits(), b.to_bits()), a < b, "lt on {a} {b}");
            assert_eq!(float_le(a.to_bits(), b.to_bits()), a <= b, "le on {a} {b}");
        }
    }
}

#[test]
fn nan_comparisons_are_false() {
    let nan = f64::NAN;
    assert!(float_is_nan(nan.to_bits()));
    assert!(float_is_nan((-nan).to_bits()));
    assert!(!float_is_nan(1.0f64.to_bits()));
    for &b in &sample_values() {
        assert!(!float_lt(nan.to_bits(), b.to_bits()));
        assert!(!float_lt(b.to_bits(), nan.to_bits()));
        assert!(!float_le(nan.to_bits(), b.to_bits()));
        assert!(!float_le(b.to_bits(), nan.to_bits()));
    }
}

#[test]
fn abs_clears_the_sign() {
    for &a in &sample_values() {
        assert_eq!(float_abs(a.to_bits()), a.abs().to_bits(), "abs on {a}");
    }
    assert!(float_is_nan(float_abs(f64::NAN.to_bits())));
}
