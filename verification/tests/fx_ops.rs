use skyracer::fx::{
    fx_abs, fx_add, fx_clamp, fx_div, fx_max, fx_min, fx_mul, fx_neg, fx_sgn, fx_smoothstep,
    fx_sub, FX_LIM, SCALE,
};

#[test]
fn multiplication_is_exact() {
    // 3.5 * 2.0 == 7.0
    assert_eq!(fx_mul(229376, 131072), 458752);
    assert_eq!(fx_mul(-229376, 131072), -458752);
    assert_eq!(fx_mul(229376, -131072), -458752);
    assert_eq!(fx_mul(-229376, -131072), 458752);
    assert_eq!(fx_mul(0, 12345678), 0);
    assert_eq!(fx_mul(SCALE, 98304000), 98304000);
}

#[test]
fn division_is_exact() {
    // 7.0 / 2.0 == 3.5
    assert_eq!(fx_div(458752, 131072), 229376);
    assert_eq!(fx_div(-458752, 131072), -229376);
    assert_eq!(fx_div(458752, -131072), -229376);
    // 1 / 3 rounds toward zero
    assert_eq!(fx_div(65536, 196608), 21845);
    assert_eq!(fx_div(-65536, 196608), -21845);
    // a zero divisor gives zero, it does not panic
    assert_eq!(fx_div(12345, 0), 0);
}

#[test]
fn multiplication_saturates_at_the_limit() {
    assert_eq!(fx_mul(FX_LIM, FX_LIM), FX_LIM);
    assert_eq!(fx_mul(-FX_LIM, FX_LIM), -FX_LIM);
    assert_eq!(fx_add(FX_LIM, FX_LIM), FX_LIM);
    assert_eq!(fx_sub(-FX_LIM, FX_LIM), -FX_LIM);
}

#[test]
fn small_helpers_behave() {
    assert_eq!(fx_neg(5), -5);
    assert_eq!(fx_abs(-7), 7);
    assert_eq!(fx_abs(7), 7);
    assert_eq!(fx_min(3, 9), 3);
    assert_eq!(fx_max(3, 9), 9);
    assert_eq!(fx_clamp(12, 0, 10), 10);
    assert_eq!(fx_clamp(-2, 0, 10), 0);
    assert_eq!(fx_clamp(5, 0, 10), 5);
    // zero counts as positive
    assert_eq!(fx_sgn(0), 1);
    assert_eq!(fx_sgn(-1), -1);
    assert_eq!(fx_sgn(1), 1);
}

#[test]
fn smoothstep_endpoints_and_midpoint() {
    let lo = 46 * SCALE;
    let hi = 48 * SCALE;
    assert_eq!(fx_smoothstep(10 * SCALE, lo, hi), 0);
    assert_eq!(fx_smoothstep(60 * SCALE, lo, hi), SCALE);
    assert_eq!(fx_smoothstep(47 * SCALE, lo, hi), 32768);
}
