use skyracer::trig::{atan2_fx, cos_fx, isqrt, sin_fx, HALF_PI_FX, PI_FX, QUARTER_PI_FX, TWO_PI_FX};
use skyracer::fx::SCALE;

#[test]
fn sine_of_special_angles() {
    assert_eq!(sin_fx(0), 0);
    assert_eq!(sin_fx(HALF_PI_FX), SCALE);
    assert_eq!(sin_fx(PI_FX), 0);
    assert_eq!(sin_fx(-HALF_PI_FX), -SCALE);
    assert_eq!(sin_fx(TWO_PI_FX), 0);
    // the value recorded for one radian; within 0.002 of the real sine
    assert_eq!(sin_fx(65536), 55064);
}

#[test]
fn cosine_of_special_angles() {
    assert_eq!(cos_fx(0), SCALE);
    assert_eq!(cos_fx(HALF_PI_FX), 0);
    assert_eq!(cos_fx(-HALF_PI_FX), 0);
    assert_eq!(cos_fx(65536), 35389);
}

#[test]
fn sine_is_periodic_and_odd() {
    for x in [1234i64, 98765, 200000, 300000] {
        assert_eq!(sin_fx(x + TWO_PI_FX), sin_fx(x));
        assert_eq!(sin_fx(-x), -sin_fx(x));
    }
}

#[test]
fn arctangent_of_special_points() {
    assert_eq!(atan2_fx(0, 12345), 0);
    assert_eq!(atan2_fx(0, 0), 0);
    assert_eq!(atan2_fx(99, 0), HALF_PI_FX);
    assert_eq!(atan2_fx(-99, 0), -HALF_PI_FX);
    // the diagonal is exactly an eighth turn
    assert_eq!(atan2_fx(SCALE, SCALE), QUARTER_PI_FX);
    assert_eq!(atan2_fx(-SCALE, SCALE), -QUARTER_PI_FX);
    // the value recorded for slope one half
    assert_eq!(atan2_fx(65536, 131072), 30209);
}

#[test]
fn integer_square_roots_are_exact() {
    assert_eq!(isqrt(0), 0);
    assert_eq!(isqrt(1), 1);
    assert_eq!(isqrt(2), 1);
    assert_eq!(isqrt(144), 12);
    assert_eq!(isqrt(145), 12);
    assert_eq!(isqrt(1_000_000_000_000), 1_000_000);
    let v: u128 = 123_456_789;
    assert_eq!(isqrt(v * v), v);
    assert_eq!(isqrt(v * v + 1), v);
    assert_eq!(isqrt(v * v - 1), v - 1);
}
