use beam_time::scalar::{Scalar, HUNDRED, INFINITY, SIGN_MASK};

fn scalar(x: f64) -> Scalar {
    Scalar::from_bits(x.to_bits())
}

fn samples() -> Vec<f64> {
    vec![
        0.0,
        -0.0,
        f64::MIN_POSITIVE,
        5e-324,
        -5e-324,
        0.5,
        1.0,
        1.29,
        4.62,
        12.8,
        12.800000000000002,
        12.799999999999999,
        30.7,
        99.99999999999999,
        100.0,
        100.00000000000001,
        240.0,
        1e300,
        f64::MAX,
        f64::INFINITY,
        -1.0,
        -100.0,
        f64::MIN,
        f64::NEG_INFINITY,
        f64::NAN,
        -f64::NAN,
    ]
}

#[test]
fn named_encodings() {
    assert_eq!(f64::from_bits(HUNDRED), 100.0);
    assert_eq!(f64::from_bits(INFINITY), f64::INFINITY);
    assert_eq!(SIGN_MASK, (-0.0f64).to_bits());
    assert_eq!(Scalar::zero().to_bits(), 0.0f64.to_bits());
}

#[test]
fn bits_round_trip() {
    for x in samples() {
        assert_eq!(scalar(x).to_bits(), x.to_bits());
        assert_eq!(scalar(x).bits, x.to_bits());
    }
}

#[test]
fn non_negative_agrees_with_the_numbers() {
    for x in samples() {
        assert_eq!(scalar(x).is_non_negative(), x >= 0.0, "{}", x);
    }
}

#[test]
fn within_agrees_with_the_numbers() {
    let maxima = samples();
    for max in maxima {
        for x in samples() {
            assert_eq!(scalar(x).is_within(scalar(max)), 0.0 <= x && x <= max, "{} in [0, {}]", x, max);
        }
    }
}
