//! Saturating fixed-point arithmetic: `i64` values carrying 16 fractional
//! bits, kept within `[-FX_LIM, FX_LIM]` so that no operation can overflow.

use vstd::prelude::*;

verus! {

use vstd::arithmetic::div_mod::lemma_div_by_multiple;

/// One unit in the fixed-point encoding: values carry 16 fractional bits.
pub const SCALE: i64 = 65536;

/// Every simulated quantity stays within this magnitude; the arithmetic
/// saturates there instead of overflowing.
pub const FX_LIM: i64 = 0x4000_0000_0000;

/// A value is representable when it lies within the saturation band.
pub open spec fn fx_ok(a: int) -> bool {
    -FX_LIM <= a <= FX_LIM
}

/// Clamp a mathematical result into the representable band.
pub open spec fn sat(x: int) -> int {
    if x > FX_LIM {
        FX_LIM as int
    } else if x < -FX_LIM {
        -(FX_LIM as int)
    } else {
        x
    }
}

/// Division rounding toward zero, for a positive divisor: the rounding the
/// executable code performs on magnitudes.
pub open spec fn div_down(a: int, b: int) -> int {
    if a >= 0 {
        a / b
    } else {
        -((-a) / b)
    }
}

/// What fixed-point addition returns.
pub open spec fn fx_add_s(a: int, b: int) -> int {
    sat(a + b)
}

/// What fixed-point subtraction returns.
pub open spec fn fx_sub_s(a: int, b: int) -> int {
    sat(a - b)
}

/// What fixed-point multiplication returns.
pub open spec fn fx_mul_s(a: int, b: int) -> int {
    sat(div_down(a * b, SCALE as int))
}

/// What fixed-point division returns; a zero divisor yields zero.
pub open spec fn fx_div_s(a: int, b: int) -> int {
    if b == 0 {
        0
    } else if b > 0 {
        sat(div_down(a * (SCALE as int), b))
    } else {
        sat(-div_down(a * (SCALE as int), -b))
    }
}

/// Clamp into `[lo, hi]`.
pub open spec fn clamp_s(x: int, lo: int, hi: int) -> int {
    if x < lo {
        lo
    } else if x > hi {
        hi
    } else {
        x
    }
}

/// Sign as a plain multiplier; zero counts as positive, the convention
/// the sign-dependent force terms expect.
pub open spec fn sgn_s(a: int) -> int {
    if a >= 0 {
        1
    } else {
        -1
    }
}

/// Magnitude.
pub open spec fn abs_s(a: int) -> int {
    if a >= 0 {
        a
    } else {
        -a
    }
}

/// Saturating fixed-point addition.
pub fn fx_add(a: i64, b: i64) -> (r: i64)
    requires
        fx_ok(a as int),
        fx_ok(b as int),
    ensures
        r == fx_add_s(a as int, b as int),
        fx_ok(r as int),
{
    let s: i64 = a + b;
    if s > FX_LIM {
        FX_LIM
    } else if s < -FX_LIM {
        -FX_LIM
    } else {
        s
    }
}

/// Saturating fixed-point subtraction.
pub fn fx_sub(a: i64, b: i64) -> (r: i64)
    requires
        fx_ok(a as int),
        fx_ok(b as int),
    ensures
        r == fx_sub_s(a as int, b as int),
        fx_ok(r as int),
{
    let s: i64 = a - b;
    if s > FX_LIM {
        FX_LIM
    } else if s < -FX_LIM {
        -FX_LIM
    } else {
        s
    }
}

/// Negation.
pub fn fx_neg(a: i64) -> (r: i64)
    requires
        fx_ok(a as int),
    ensures
        r == -(a as int),
        fx_ok(r as int),
{
    -a
}

/// Magnitude.
pub fn fx_abs(a: i64) -> (r: i64)
    requires
        fx_ok(a as int),
    ensures
        r == abs_s(a as int),
        fx_ok(r as int),
{
    if a >= 0 {
        a
    } else {
        -a
    }
}

/// Smaller of two values.
pub fn fx_min(a: i64, b: i64) -> (r: i64)
    ensures
        r == if a as int <= b as int { a as int } else { b as int },
{
    if a <= b {
        a
    } else {
        b
    }
}

/// Larger of two values.
pub fn fx_max(a: i64, b: i64) -> (r: i64)
    ensures
        r == if a as int >= b as int { a as int } else { b as int },
{
    if a >= b {
        a
    } else {
        b
    }
}

/// Clamp into `[lo, hi]`.
pub fn fx_clamp(x: i64, lo: i64, hi: i64) -> (r: i64)
    requires
        lo <= hi,
    ensures
        r == clamp_s(x as int, lo as int, hi as int),
{
    if x < lo {
        lo
    } else if x > hi {
        hi
    } else {
        x
    }
}

/// Sign multiplier; zero counts as positive.
pub fn fx_sgn(a: i64) -> (r: i64)
    ensures
        r == sgn_s(a as int),
{
    if a >= 0 {
        1
    } else {
        -1
    }
}

/// Saturating fixed-point multiplication, exact to its specification.
pub fn fx_mul(a: i64, b: i64) -> (r: i64)
    requires
        fx_ok(a as int),
        fx_ok(b as int),
    ensures
        r == fx_mul_s(a as int, b as int),
        fx_ok(r as int),
{
    let neg: bool = (a < 0) != (b < 0);
    let pa: u128 = if a >= 0 {
        a as u128
    } else {
        (-a) as u128
    };
    let pb: u128 = if b >= 0 {
        b as u128
    } else {
        (-b) as u128
    };
    assert(pa == abs_s(a as int) && pb == abs_s(b as int));
    assert(pa * pb == abs_s((a as int) * (b as int)) && pa * pb <= (FX_LIM as u128) * (
    FX_LIM as u128)) by (nonlinear_arith)
        requires
            pa == abs_s(a as int),
            pb == abs_s(b as int),
            pa <= FX_LIM as u128,
            pb <= FX_LIM as u128,
    ;
    let prod: u128 = pa * pb;
    let q: u128 = prod / 65536;
    assert(q == div_down(abs_s((a as int) * (b as int)), SCALE as int));
    let qc: u128 = if q > (FX_LIM as u128) {
        FX_LIM as u128
    } else {
        q
    };
    let r: i64 = if neg {
        -(qc as i64)
    } else {
        qc as i64
    };
    proof {
        let ab = (a as int) * (b as int);
        if neg {
            assert(ab <= 0) by (nonlinear_arith)
                requires
                    (a < 0) != (b < 0),
                    ab == (a as int) * (b as int),
            ;
            assert(div_down(ab, SCALE as int) == -(q as int));
        } else {
            assert(ab >= 0) by (nonlinear_arith)
                requires
                    !((a < 0) != (b < 0)),
                    ab == (a as int) * (b as int),
            ;
            assert(div_down(ab, SCALE as int) == q as int);
        }
    }
    r
}

/// Saturating fixed-point division, exact to its specification; returns zero
/// for a zero divisor.
pub fn fx_div(a: i64, b: i64) -> (r: i64)
    requires
        fx_ok(a as int),
        fx_ok(b as int),
    ensures
        r == fx_div_s(a as int, b as int),
        fx_ok(r as int),
{
    if b == 0 {
        return 0;
    }
    let neg: bool = (a < 0) != (b < 0);
    let pa: u128 = if a >= 0 {
        a as u128
    } else {
        (-a) as u128
    };
    let pb: u128 = if b >= 0 {
        b as u128
    } else {
        (-b) as u128
    };
    let num: u128 = pa * 65536;
    let q: u128 = num / pb;
    let qc: u128 = if q > (FX_LIM as u128) {
        FX_LIM as u128
    } else {
        q
    };
    let r: i64 = if neg {
        -(qc as i64)
    } else {
        qc as i64
    };
    proof {
        let aa = abs_s(a as int);
        let ba = abs_s(b as int);
        assert(q == div_down(aa * (SCALE as int), ba));
        if b > 0 {
            if a >= 0 {
                assert(aa * (SCALE as int) == (a as int) * (SCALE as int));
            } else {
                assert(aa * (SCALE as int) == -((a as int) * (SCALE as int))) by (nonlinear_arith)
                    requires
                        aa == -(a as int),
                ;
                assert(div_down((a as int) * (SCALE as int), ba) == -(q as int));
            }
        } else {
            if a >= 0 {
                assert(aa * (SCALE as int) == (a as int) * (SCALE as int));
            } else {
                assert(aa * (SCALE as int) == -((a as int) * (SCALE as int))) by (nonlinear_arith)
                    requires
                        aa == -(a as int),
                ;
                assert(div_down((a as int) * (SCALE as int), ba) == -(q as int));
            }
        }
    }
    r
}

/// Multiplying by the unit value gives the value back.
pub proof fn lemma_fx_mul_one(a: int)
    requires
        fx_ok(a),
    ensures
        fx_mul_s(a, SCALE as int) == a,
{
    if a >= 0 {
        lemma_div_by_multiple(a, SCALE as int);
        assert(div_down(a * (SCALE as int), SCALE as int) == a);
    } else {
        lemma_div_by_multiple(-a, SCALE as int);
        assert((-a) * (SCALE as int) == -(a * (SCALE as int))) by (nonlinear_arith);
        assert(div_down(a * (SCALE as int), SCALE as int) == a);
    }
}

/// Multiplying by zero gives zero.
pub proof fn lemma_fx_mul_zero(b: int)
    ensures
        fx_mul_s(0, b) == 0,
        fx_mul_s(b, 0) == 0,
{
    assert(0 * b == 0) by (nonlinear_arith);
    assert(b * 0 == 0) by (nonlinear_arith);
}

/// The cubic smoothstep between two edges: zero below `e0`, one above
/// `e1`, and `t * t * (3 - 2 t)` of the normalized position between.
pub open spec fn smoothstep_s(x: int, e0: int, e1: int) -> int {
    let t = clamp_s(fx_div_s(fx_sub_s(x, e0), fx_sub_s(e1, e0)), 0, SCALE as int);
    fx_mul_s(fx_mul_s(t, t), fx_sub_s(3 * (SCALE as int), t + t))
}

/// Cubic smoothstep, exact to `smoothstep_s`; the result stays within a
/// unit.
pub fn fx_smoothstep(x: i64, e0: i64, e1: i64) -> (r: i64)
    requires
        fx_ok(x as int),
        fx_ok(e0 as int),
        fx_ok(e1 as int),
    ensures
        r == smoothstep_s(x as int, e0 as int, e1 as int),
        0 <= r <= SCALE,
{
    let t: i64 = fx_clamp(fx_div(fx_sub(x, e0), fx_sub(e1, e0)), 0, SCALE);
    let u: i64 = fx_mul(t, t);
    let w: i64 = fx_sub(3 * SCALE, t + t);
    let r: i64 = fx_mul(u, w);
    proof {
        let ti = t as int;
        let s = SCALE as int;
        assert(0 <= ti <= s);
        assert(ti * ti >= 0) by (nonlinear_arith)
            requires
                ti >= 0,
        ;
        assert((ti * ti) / s <= s) by {
            assert(ti * ti <= s * s) by (nonlinear_arith)
                requires
                    0 <= ti <= s,
            ;
            vstd::arithmetic::div_mod::lemma_div_is_ordered(ti * ti, s * s, s);
            vstd::arithmetic::div_mod::lemma_div_by_multiple(s, s);
        }
        vstd::arithmetic::div_mod::lemma_div_pos_is_pos(ti * ti, s);
        assert(u == (ti * ti) / s);
        assert(u * s <= ti * ti) by {
            vstd::arithmetic::div_mod::lemma_fundamental_div_mod(ti * ti, s);
            vstd::arithmetic::div_mod::lemma_mod_bound(ti * ti, s);
            assert(s * ((ti * ti) / s) == ((ti * ti) / s) * s) by (nonlinear_arith);
        }
        assert(s <= w as int <= 3 * s);
        assert(u * (w as int) >= 0) by (nonlinear_arith)
            requires
                u >= 0,
                w as int >= 0,
        ;
        assert((u * (w as int)) / s <= 3 * s) by {
            assert(u * (w as int) <= (3 * s) * s) by (nonlinear_arith)
                requires
                    0 <= u <= s,
                    0 <= w as int <= 3 * s,
            ;
            vstd::arithmetic::div_mod::lemma_div_is_ordered(u * (w as int), (3 * s) * s, s);
            vstd::arithmetic::div_mod::lemma_div_by_multiple(3 * s, s);
        }
        vstd::arithmetic::div_mod::lemma_div_pos_is_pos(u * (w as int), s);
        assert(r == (u * (w as int)) / s);
        // r * s^2 <= u * w * s <= t^2 * w <= s^3, so r <= s
        assert(r * s <= u * (w as int)) by {
            vstd::arithmetic::div_mod::lemma_fundamental_div_mod(u * (w as int), s);
            vstd::arithmetic::div_mod::lemma_mod_bound(u * (w as int), s);
            assert(s * ((u * (w as int)) / s) == ((u * (w as int)) / s) * s) by (nonlinear_arith);
        }
        assert(ti * ti * (3 * s - 2 * ti) <= s * s * s) by (nonlinear_arith)
            requires
                0 <= ti <= s,
        ;
        assert(w as int == 3 * s - 2 * ti);
        assert(r <= s) by (nonlinear_arith)
            requires
                r * s <= u * (w as int),
                u * s <= ti * ti,
                ti * ti * (w as int) <= s * s * s,
                w as int >= 0,
                s > 0,
                r >= 0,
        ;
    }
    r
}

/// The unit value on the left behaves the same as on the right.
pub proof fn lemma_fx_mul_one_left(a: int)
    requires
        fx_ok(a),
    ensures
        fx_mul_s(SCALE as int, a) == a,
{
    assert((SCALE as int) * a == a * (SCALE as int)) by (nonlinear_arith);
    lemma_fx_mul_one(a);
}

/// Dividing zero gives zero, whatever the divisor.
pub proof fn lemma_fx_div_zero(b: int)
    ensures
        fx_div_s(0, b) == 0,
{
    if b != 0 {
        assert(0 * (SCALE as int) == 0) by (nonlinear_arith);
        if b > 0 {
            vstd::arithmetic::div_mod::lemma_div_of0(b);
        } else {
            vstd::arithmetic::div_mod::lemma_div_of0(-b);
        }
    }
}

/// Truncating division is monotone in the numerator.
pub proof fn lemma_div_down_mono(x: int, y: int, d: int)
    requires
        x <= y,
        d > 0,
    ensures
        div_down(x, d) <= div_down(y, d),
{
    if x >= 0 {
        vstd::arithmetic::div_mod::lemma_div_is_ordered(x, y, d);
    } else if y < 0 {
        vstd::arithmetic::div_mod::lemma_div_is_ordered(-y, -x, d);
    } else {
        vstd::arithmetic::div_mod::lemma_div_pos_is_pos(-x, d);
        vstd::arithmetic::div_mod::lemma_div_pos_is_pos(y, d);
    }
}

/// Fixed-point multiplication does not care about the order of its
/// factors.
pub proof fn lemma_fx_mul_comm(a: int, b: int)
    ensures
        fx_mul_s(a, b) == fx_mul_s(b, a),
{
    assert(a * b == b * a) by (nonlinear_arith);
}

/// Fixed-point multiplication is monotone in its second factor when the
/// first is nonnegative.
pub proof fn lemma_fx_mul_mono(a: int, b1: int, b2: int)
    requires
        a >= 0,
        b1 <= b2,
    ensures
        fx_mul_s(a, b1) <= fx_mul_s(a, b2),
{
    assert(a * b1 <= a * b2) by (nonlinear_arith)
        requires
            a >= 0,
            b1 <= b2,
    ;
    lemma_div_down_mono(a * b1, a * b2, SCALE as int);
}

/// A factor of magnitude at most one never grows the other factor.
pub proof fn lemma_fx_mul_contract(a: int, b: int)
    requires
        -SCALE <= b <= SCALE,
    ensures
        abs_s(fx_mul_s(a, b)) <= abs_s(a),
{
    let aa = abs_s(a);
    assert(abs_s(a * b) <= aa * (SCALE as int)) by (nonlinear_arith)
        requires
            aa == abs_s(a),
            -(SCALE as int) <= b <= SCALE as int,
    ;
    let p = a * b;
    let ap = abs_s(p);
    assert(div_down(ap, SCALE as int) <= aa) by {
        vstd::arithmetic::div_mod::lemma_div_is_ordered(ap, aa * (SCALE as int), SCALE as int);
        vstd::arithmetic::div_mod::lemma_div_by_multiple(aa, SCALE as int);
        assert(aa * (SCALE as int) == (SCALE as int) * aa) by (nonlinear_arith);
    }
    vstd::arithmetic::div_mod::lemma_div_pos_is_pos(ap, SCALE as int);
    if p >= 0 {
        assert(div_down(p, SCALE as int) == div_down(ap, SCALE as int));
    } else {
        assert(div_down(p, SCALE as int) == -div_down(ap, SCALE as int));
    }
}

/// A product of values that are nonnegative is nonnegative, and rounding
/// toward zero never increases a nonnegative product.
pub proof fn lemma_fx_mul_nonneg(a: int, b: int)
    requires
        a >= 0,
        b >= 0,
    ensures
        fx_mul_s(a, b) >= 0,
        fx_mul_s(a, b) * (SCALE as int) <= a * b || fx_mul_s(a, b) == FX_LIM,
{
    assert(a * b >= 0) by (nonlinear_arith)
        requires
            a >= 0,
            b >= 0,
    ;
    let d = (a * b) / (SCALE as int);
    assert(d * (SCALE as int) <= a * b) by {
        vstd::arithmetic::div_mod::lemma_fundamental_div_mod(a * b, SCALE as int);
        vstd::arithmetic::div_mod::lemma_mod_bound(a * b, SCALE as int);
    }
    assert(d >= 0) by {
        vstd::arithmetic::div_mod::lemma_div_pos_is_pos(a * b, SCALE as int);
    }
}

} // verus!
