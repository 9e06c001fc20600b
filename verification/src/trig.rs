//! Fixed-point trigonometry and square root for the physics model: a
//! rational sine approximation, a rational arctangent for slip angles,
//! and an exact integer square root for speeds.

use vstd::prelude::*;

verus! {

use crate::fx::{SCALE, FX_LIM, fx_ok, div_down, abs_s};
use vstd::arithmetic::div_mod::{
    lemma_fundamental_div_mod,
    lemma_fundamental_div_mod_converse,
    lemma_div_is_ordered,
    lemma_div_by_multiple,
    lemma_div_pos_is_pos,
};

/// Half turn (pi), even by construction so that a quarter turn is exact.
pub const PI_FX: i64 = 205888;

/// Quarter turn (pi / 2).
pub const HALF_PI_FX: i64 = 102944;

/// Eighth turn (pi / 4).
pub const QUARTER_PI_FX: i64 = 51472;

/// Full turn (2 pi).
pub const TWO_PI_FX: i64 = 411776;

/// Largest value of `y * (pi - y) / SCALE` over a half turn.
pub const SIN_A_MAX: i64 = 161704;

/// Denominator constant of the rational sine approximation, tuned so that
/// the sine of a quarter turn is exactly one.
pub const SIN_DEN: i64 = 3234080;

/// Coefficient of the rational arctangent approximation (0.273).
pub const ATAN_K: i64 = 17892;

/// Inputs a whole turn beyond the saturation band are still accepted, so
/// that a phase shift never needs a range check.
pub open spec fn angle_ok(x: int) -> bool {
    -(FX_LIM as int) - TWO_PI_FX <= x <= FX_LIM + TWO_PI_FX
}

/// Sine on `[0, pi]`: the rational approximation
/// `16 a / (SIN_DEN - 4 a)` with `a = y (pi - y) / SCALE`.
pub open spec fn sin_half_s(y: int) -> int {
    let a = div_down(y * (PI_FX - y), SCALE as int);
    div_down(16 * a * (SCALE as int), SIN_DEN - 4 * a)
}

/// Sine of any angle: reduce into `(-pi, pi]`, then apply the half-turn
/// approximation with odd symmetry.
pub open spec fn sin_s(x: int) -> int {
    let m0 = x % (TWO_PI_FX as int);
    let m = if m0 > PI_FX {
        m0 - TWO_PI_FX
    } else {
        m0
    };
    if m >= 0 {
        sin_half_s(m)
    } else {
        -sin_half_s(-m)
    }
}

/// Cosine as a phase-shifted sine.
pub open spec fn cos_s(x: int) -> int {
    sin_s(x + HALF_PI_FX)
}

/// Arctangent on `[0, 1]`: `u * pi/4 + K u (1 - u)` with `K = 0.273`.
pub open spec fn atan_unit_s(u: int) -> int {
    div_down(u * (QUARTER_PI_FX as int), SCALE as int) + div_down(
        div_down((ATAN_K as int) * u, SCALE as int) * ((SCALE as int) - u),
        SCALE as int,
    )
}

/// Two-argument arctangent for a nonnegative abscissa: the angle of the
/// point `(x, y)`, in `[-pi/2, pi/2]`.
pub open spec fn atan2_s(y: int, x: int) -> int {
    if y == 0 {
        0
    } else {
        let ay = abs_s(y);
        let r = if x == 0 {
            HALF_PI_FX as int
        } else if ay <= x {
            atan_unit_s(div_down(ay * (SCALE as int), x))
        } else {
            HALF_PI_FX - atan_unit_s(div_down(x * (SCALE as int), ay))
        };
        if y > 0 {
            r
        } else {
            -r
        }
    }
}

/// The sine of zero is zero and the cosine of zero is exactly one: the
/// pointing direction of a car with zero heading is the positive x axis.
pub proof fn lemma_sin_cos_zero()
    ensures
        sin_s(0) == 0,
        cos_s(0) == SCALE,
        sin_s(HALF_PI_FX as int) == SCALE,
{
    vstd::arithmetic::div_mod::lemma_small_mod(0nat, TWO_PI_FX as nat);
    assert(0 * ((PI_FX - 0) as int) == 0) by (nonlinear_arith);
    vstd::arithmetic::div_mod::lemma_div_of0(SCALE as int);
    assert(div_down(0, SCALE as int) == 0);
    assert(16 * 0 * (SCALE as int) == 0) by (nonlinear_arith);
    vstd::arithmetic::div_mod::lemma_div_of0(SIN_DEN - 4 * 0);
    assert(sin_half_s(0) == 0);
    vstd::arithmetic::div_mod::lemma_small_mod(HALF_PI_FX as nat, TWO_PI_FX as nat);
    assert((HALF_PI_FX as int) % (TWO_PI_FX as int) == HALF_PI_FX);
    assert((HALF_PI_FX as int) * ((PI_FX - HALF_PI_FX) as int) == 10597467136)
        by (nonlinear_arith);
    assert(div_down(10597467136, SCALE as int) == 161704);
    assert(sin_half_s(HALF_PI_FX as int) == div_down(16 * 161704 * (SCALE as int), SIN_DEN - 4
        * 161704));
    assert(16 * 161704 * (SCALE as int) == 2587264 * (SCALE as int)) by (nonlinear_arith);
    assert(SIN_DEN - 4 * 161704 == 2587264);
    vstd::arithmetic::div_mod::lemma_div_by_multiple(SCALE as int, 2587264);
    assert(2587264 * (SCALE as int) == (SCALE as int) * 2587264) by (nonlinear_arith);
    assert(sin_half_s(HALF_PI_FX as int) == SCALE);
}

/// Integer square root, defined by counting up.
pub open spec fn isqrt_s(n: nat) -> nat
    decreases n,
{
    if n == 0 {
        0
    } else {
        let p = isqrt_s((n - 1) as nat);
        if (p + 1) * (p + 1) <= n {
            p + 1
        } else {
            p
        }
    }
}

/// The integer square root is the unique value whose square window holds `n`.
pub proof fn lemma_isqrt(n: nat)
    ensures
        isqrt_s(n) * isqrt_s(n) <= n,
        n < (isqrt_s(n) + 1) * (isqrt_s(n) + 1),
    decreases n,
{
    if n == 0 {
        assert(isqrt_s(0) == 0);
        assert((isqrt_s(n) + 1) * (isqrt_s(n) + 1) == 1) by (nonlinear_arith)
            requires
                isqrt_s(n) == 0,
        ;
    } else {
        let p = isqrt_s((n - 1) as nat);
        lemma_isqrt((n - 1) as nat);
        if (p + 1) * (p + 1) <= n {
            assert(isqrt_s(n) == p + 1);
            assert(n < ((p + 1) + 1) * ((p + 1) + 1)) by (nonlinear_arith)
                requires
                    (n - 1) < (p + 1) * (p + 1),
            ;
        } else {
            assert(isqrt_s(n) == p);
            assert(p * p <= n);
            assert(n < (p + 1) * (p + 1));
        }
    }
}

/// Any value whose square window holds `n` is the integer square root.
pub proof fn lemma_isqrt_unique(n: nat, r: nat)
    requires
        r * r <= n,
        n < (r + 1) * (r + 1),
    ensures
        r == isqrt_s(n),
{
    let s = isqrt_s(n);
    lemma_isqrt(n);
    if r < s {
        assert((r + 1) * (r + 1) <= s * s) by (nonlinear_arith)
            requires
                r + 1 <= s,
        ;
    }
    if s < r {
        assert((s + 1) * (s + 1) <= r * r) by (nonlinear_arith)
            requires
                s + 1 <= r,
        ;
    }
}

/// The integer square root is below `k` exactly when `n` is below `k`
/// squared.
pub proof fn lemma_isqrt_below(n: nat, k: nat)
    ensures
        (isqrt_s(n) < k) <==> (n < k * k),
{
    let r = isqrt_s(n);
    lemma_isqrt(n);
    if r < k {
        assert((r + 1) * (r + 1) <= k * k) by (nonlinear_arith)
            requires
                r + 1 <= k,
        ;
    }
    if n < k * k && !(r < k) {
        assert(k * k <= r * r) by (nonlinear_arith)
            requires
                k <= r,
        ;
    }
}

/// Integer square root of `n`, by binary search.
pub fn isqrt(n: u128) -> (r: u128)
    requires
        n < 0x4000_0000_0000_0000_0000_0000_0000_0000,
    ensures
        r == isqrt_s(n as nat),
        r * r <= n,
        n < (r + 1) * (r + 1),
        r < 0x8000_0000_0000_0000,
{
    let mut lo: u128 = 0;
    let mut hi: u128 = 0x8000_0000_0000_0000;
    assert(hi * hi == 0x4000_0000_0000_0000_0000_0000_0000_0000) by (nonlinear_arith)
        requires
            hi == 0x8000_0000_0000_0000u128,
    ;
    while lo + 1 < hi
        invariant
            lo < hi,
            hi <= 0x8000_0000_0000_0000,
            lo * lo <= n,
            n < hi * hi,
        decreases hi - lo,
    {
        let mid: u128 = lo + (hi - lo) / 2;
        assert(lo < mid < hi);
        assert(mid * mid < 0x1_0000_0000_0000_0000_0000_0000_0000_0000) by (nonlinear_arith)
            requires
                mid < 0x8000_0000_0000_0000u128,
        ;
        if mid * mid <= n {
            lo = mid;
        } else {
            hi = mid;
        }
    }
    proof {
        lemma_isqrt_unique(n as nat, lo as nat);
    }
    lo
}

/// Sine on `[0, pi]`, exact to `sin_half_s`.
fn sin_half(y: i64) -> (r: i64)
    requires
        0 <= y <= PI_FX,
    ensures
        r == sin_half_s(y as int),
        0 <= r <= SCALE,
{
    assert(0 <= (y as int) * ((PI_FX - y) as int) && (y as int) * ((PI_FX - y) as int) <= (
    HALF_PI_FX as int) * (HALF_PI_FX as int)) by (nonlinear_arith)
        requires
            0 <= y as int <= PI_FX as int,
            PI_FX as int == 2 * (HALF_PI_FX as int),
    ;
    let p: i64 = y * (PI_FX - y);
    let a: i64 = ((p as u64) / 65536) as i64;
    assert(a == div_down(p as int, SCALE as int));
    proof {
        lemma_div_pos_is_pos(p as int, SCALE as int);
        // a is at most SIN_A_MAX: y (pi - y) peaks at the quarter turn
        assert((y as int) * ((PI_FX - y) as int) <= (HALF_PI_FX as int) * (HALF_PI_FX as int))
            by (nonlinear_arith)
            requires
                0 <= y as int <= PI_FX as int,
                PI_FX as int == 2 * (HALF_PI_FX as int),
        ;
        lemma_div_is_ordered(
            p as int,
            (HALF_PI_FX as int) * (HALF_PI_FX as int),
            SCALE as int,
        );
        assert((HALF_PI_FX as int) * (HALF_PI_FX as int) == 10597467136) by (nonlinear_arith);
        assert(10597467136int / (SCALE as int) == SIN_A_MAX);
    }
    assert(0 <= a <= SIN_A_MAX);
    let num: i64 = 16 * a;
    let den: i64 = SIN_DEN - 4 * a;
    assert(den >= 16 * SIN_A_MAX as int);
    let nums: u64 = (num as u64) * 65536;
    let r: i64 = ((nums / (den as u64))) as i64;
    proof {
        assert(r == div_down((num as int) * (SCALE as int), den as int));
        // numerator is at most the denominator scaled, so the ratio is at most one
        assert((num as int) * (SCALE as int) <= (den as int) * (SCALE as int)) by (nonlinear_arith)
            requires
                num as int <= den as int,
                SCALE as int > 0,
        ;
        lemma_div_is_ordered(
            (num as int) * (SCALE as int),
            (den as int) * (SCALE as int),
            den as int,
        );
        lemma_div_by_multiple(SCALE as int, den as int);
        lemma_div_pos_is_pos((num as int) * (SCALE as int), den as int);
        assert((num as int) * (SCALE as int) >= 0) by (nonlinear_arith)
            requires
                num as int >= 0,
        ;
    }
    r
}

/// Euclidean remainder of `x` by a full turn, done in unsigned arithmetic.
fn mod_turn(x: i64) -> (m: i64)
    requires
        angle_ok(x as int),
    ensures
        m == (x as int) % (TWO_PI_FX as int),
        0 <= m < TWO_PI_FX,
{
    let ax: u64 = if x >= 0 {
        x as u64
    } else {
        (-x) as u64
    };
    let q0: u64 = ax / 411776;
    let m0: u64 = ax % 411776;
    if x >= 0 {
        proof {
            lemma_fundamental_div_mod(ax as int, TWO_PI_FX as int);
            lemma_fundamental_div_mod_converse(
                x as int,
                TWO_PI_FX as int,
                q0 as int,
                m0 as int,
            );
        }
        m0 as i64
    } else if m0 == 0 {
        proof {
            lemma_fundamental_div_mod(ax as int, TWO_PI_FX as int);
            lemma_fundamental_div_mod_converse(x as int, TWO_PI_FX as int, -(q0 as int), 0);
        }
        0
    } else {
        proof {
            lemma_fundamental_div_mod(ax as int, TWO_PI_FX as int);
            lemma_fundamental_div_mod_converse(
                x as int,
                TWO_PI_FX as int,
                -(q0 as int) - 1,
                TWO_PI_FX - m0 as int,
            );
        }
        TWO_PI_FX - (m0 as i64)
    }
}

/// Sine, exact to `sin_s`; the result lies within one unit.
pub fn sin_fx(x: i64) -> (r: i64)
    requires
        angle_ok(x as int),
    ensures
        r == sin_s(x as int),
        -SCALE <= r <= SCALE,
{
    let m0: i64 = mod_turn(x);
    let m: i64 = if m0 > PI_FX {
        m0 - TWO_PI_FX
    } else {
        m0
    };
    if m >= 0 {
        sin_half(m)
    } else {
        let s: i64 = sin_half(-m);
        -s
    }
}

/// Cosine, exact to `cos_s`; the result lies within one unit.
pub fn cos_fx(x: i64) -> (r: i64)
    requires
        fx_ok(x as int),
    ensures
        r == cos_s(x as int),
        -SCALE <= r <= SCALE,
{
    sin_fx(x + HALF_PI_FX)
}

/// Arctangent on `[0, 1]`, exact to `atan_unit_s`.
fn atan_unit(u: i64) -> (r: i64)
    requires
        0 <= u <= SCALE,
    ensures
        r == atan_unit_s(u as int),
        0 <= r < HALF_PI_FX,
{
    let t1: u64 = ((u as u64) * 51472) / 65536;
    proof {
        assert(t1 == div_down((u as int) * (QUARTER_PI_FX as int), SCALE as int));
        assert((u as int) * (QUARTER_PI_FX as int) <= (SCALE as int) * (QUARTER_PI_FX as int))
            by (nonlinear_arith)
            requires
                u as int <= SCALE as int,
                QUARTER_PI_FX as int >= 0,
        ;
        lemma_div_is_ordered(
            (u as int) * (QUARTER_PI_FX as int),
            (SCALE as int) * (QUARTER_PI_FX as int),
            SCALE as int,
        );
        lemma_div_by_multiple(QUARTER_PI_FX as int, SCALE as int);
    }
    let t2a: u64 = (17892 * (u as u64)) / 65536;
    proof {
        assert(t2a == div_down((ATAN_K as int) * (u as int), SCALE as int));
        assert((ATAN_K as int) * (u as int) <= (ATAN_K as int) * (SCALE as int))
            by (nonlinear_arith)
            requires
                u as int <= SCALE as int,
                ATAN_K as int >= 0,
        ;
        lemma_div_is_ordered(
            (ATAN_K as int) * (u as int),
            (ATAN_K as int) * (SCALE as int),
            SCALE as int,
        );
        lemma_div_by_multiple(ATAN_K as int, SCALE as int);
    }
    let rest: u64 = (SCALE - u) as u64;
    proof {
        assert((t2a as int) * (rest as int) <= (ATAN_K as int) * (SCALE as int))
            by (nonlinear_arith)
            requires
                0 <= t2a as int <= ATAN_K as int,
                0 <= rest as int <= SCALE as int,
        ;
    }
    let t2: u64 = (t2a * rest) / 65536;
    proof {
        lemma_div_is_ordered(
            (t2a as int) * (rest as int),
            (ATAN_K as int) * (SCALE as int),
            SCALE as int,
        );
        assert(t2 == div_down((t2a as int) * (rest as int), SCALE as int));
    }
    (t1 + t2) as i64
}

/// Two-argument arctangent for a nonnegative abscissa, exact to `atan2_s`.
pub fn atan2_fx(y: i64, x: i64) -> (r: i64)
    requires
        fx_ok(y as int),
        fx_ok(x as int),
        x >= 0,
    ensures
        r == atan2_s(y as int, x as int),
        -HALF_PI_FX <= r <= HALF_PI_FX,
{
    if y == 0 {
        return 0;
    }
    let ay: i64 = if y >= 0 {
        y
    } else {
        -y
    };
    let r: i64 = if x == 0 {
        HALF_PI_FX
    } else if ay <= x {
        let num: u128 = (ay as u128) * 65536;
        let u: i64 = (num / (x as u128)) as i64;
        proof {
            assert(u == div_down((ay as int) * (SCALE as int), x as int));
            assert((ay as int) * (SCALE as int) <= (x as int) * (SCALE as int))
                by (nonlinear_arith)
                requires
                    ay as int <= x as int,
                    SCALE as int >= 0,
            ;
            lemma_div_is_ordered(
                (ay as int) * (SCALE as int),
                (x as int) * (SCALE as int),
                x as int,
            );
            lemma_div_by_multiple(SCALE as int, x as int);
            lemma_div_pos_is_pos((ay as int) * (SCALE as int), x as int);
            assert((ay as int) * (SCALE as int) >= 0) by (nonlinear_arith)
                requires
                    ay as int >= 0,
            ;
        }
        atan_unit(u)
    } else {
        let num: u128 = (x as u128) * 65536;
        let u: i64 = (num / (ay as u128)) as i64;
        proof {
            assert(u == div_down((x as int) * (SCALE as int), ay as int));
            assert((x as int) * (SCALE as int) <= (ay as int) * (SCALE as int))
                by (nonlinear_arith)
                requires
                    x as int <= ay as int,
                    SCALE as int >= 0,
            ;
            lemma_div_is_ordered(
                (x as int) * (SCALE as int),
                (ay as int) * (SCALE as int),
                ay as int,
            );
            lemma_div_by_multiple(SCALE as int, ay as int);
            lemma_div_pos_is_pos((x as int) * (SCALE as int), ay as int);
            assert((x as int) * (SCALE as int) >= 0) by (nonlinear_arith)
                requires
                    x as int >= 0,
            ;
        }
        HALF_PI_FX - atan_unit(u)
    };
    if y > 0 {
        r
    } else {
        -r
    }
}

} // verus!
