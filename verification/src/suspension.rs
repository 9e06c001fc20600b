//! Single-corner spring/damper suspension: a damped spring under an
//! external axle load, advanced by explicit Euler steps.

use vstd::prelude::*;

verus! {

use crate::fx::{
    SCALE,
    FX_LIM,
    fx_ok,
    sat,
    div_down,
    abs_s,
    fx_add_s,
    fx_sub_s,
    fx_mul_s,
    fx_div_s,
    fx_add,
    fx_sub,
    fx_mul,
    fx_div,
};
use vstd::arithmetic::div_mod::{
    lemma_fundamental_div_mod,
    lemma_mod_bound,
    lemma_div_is_ordered,
    lemma_div_pos_is_pos,
};

/// One suspension corner. The length evolves only through `apply_force`.
#[derive(Clone, Copy, Debug, PartialEq, Eq, Structural)]
pub struct Suspension {
    pub eq_length: i64,
    pub length: i64,
    pub velocity: i64,
    pub dampening: i64,
    pub stiffness: i64,
}

/// What the spring pushes with: external load down, displacement times
/// stiffness up, velocity times damping against the motion.
pub open spec fn susp_net_force_s(s: Suspension, force: int) -> int {
    fx_sub_s(
        fx_add_s(-force, fx_mul_s(fx_sub_s(s.eq_length as int, s.length as int), s.stiffness as int)),
        fx_mul_s(s.velocity as int, s.dampening as int),
    )
}

/// The corner's velocity after one step under `force`.
pub open spec fn susp_vel_next_s(s: Suspension, force: int, time: int, mass: int) -> int {
    fx_add_s(s.velocity as int, fx_mul_s(fx_div_s(susp_net_force_s(s, force), mass), time))
}

/// The corner's length after one step under `force`.
pub open spec fn susp_len_next_s(s: Suspension, force: int, time: int, mass: int) -> int {
    fx_add_s(s.length as int, fx_mul_s(susp_vel_next_s(s, force, time, mass), time))
}

/// The length the corner settles at under a constant load: the equilibrium
/// length less the static compression `load / stiffness`.
pub open spec fn susp_settle_s(s: Suspension, load: int) -> int {
    fx_sub_s(s.eq_length as int, fx_div_s(load, s.stiffness as int))
}

impl Suspension {
    /// All fields representable, the spring constants meaningful.
    pub open spec fn wf(self) -> bool {
        &&& fx_ok(self.eq_length as int)
        &&& fx_ok(self.length as int)
        &&& fx_ok(self.velocity as int)
        &&& fx_ok(self.dampening as int)
        &&& fx_ok(self.stiffness as int)
        &&& self.dampening >= 0
        &&& self.stiffness > 0
    }

    /// A fresh corner at rest at its equilibrium length.
    pub fn new(eq_length: i64, dampening: i64, stiffness: i64) -> (r: Suspension)
        requires
            fx_ok(eq_length as int),
            fx_ok(dampening as int),
            fx_ok(stiffness as int),
            dampening >= 0,
            stiffness > 0,
        ensures
            r.eq_length == eq_length,
            r.dampening == dampening,
            r.stiffness == stiffness,
            r.length == eq_length,
            r.velocity == 0,
            r.wf(),
    {
        Suspension { eq_length, dampening, stiffness, velocity: 0, length: eq_length }
    }

    /// One Euler step of the damped spring under an external load: the
    /// velocity picks up the net acceleration, the length follows the new
    /// velocity. The length is deliberately not clamped.
    pub fn apply_force(&mut self, force: i64, time: i64, mass: i64)
        requires
            old(self).wf(),
            fx_ok(force as int),
            fx_ok(time as int),
            fx_ok(mass as int),
        ensures
            final(self).velocity == susp_vel_next_s(*old(self), force as int, time as int, mass as int),
            final(self).length == susp_len_next_s(*old(self), force as int, time as int, mass as int),
            final(self).eq_length == old(self).eq_length,
            final(self).dampening == old(self).dampening,
            final(self).stiffness == old(self).stiffness,
            final(self).wf(),
    {
        let dx: i64 = fx_sub(self.eq_length, self.length);
        let net_force: i64 = fx_sub(
            fx_add(-force, fx_mul(dx, self.stiffness)),
            fx_mul(self.velocity, self.dampening),
        );
        let acceleration: i64 = fx_div(net_force, mass);
        self.velocity = fx_add(self.velocity, fx_mul(acceleration, time));
        self.length = fx_add(self.length, fx_mul(self.velocity, time));
    }
}

/// With the corner at rest, the spring's net force never points away
/// from the settling length: below it the corner is pushed back up,
/// above it back down. This is the approach direction of the suspension
/// convergence behavior.
pub proof fn lemma_susp_restoring(s: Suspension, load: int)
    requires
        s.wf(),
        s.stiffness >= SCALE,
        0 <= load <= FX_LIM,
        s.velocity == 0,
        fx_ok(s.eq_length - div_down(load * (SCALE as int), s.stiffness as int)),
    ensures
        s.length <= susp_settle_s(s, load) - 1 ==> susp_net_force_s(s, load) >= 0,
        s.length >= susp_settle_s(s, load) + 1 ==> susp_net_force_s(s, load) <= 0,
{
    let st = s.stiffness as int;
    let sc = SCALE as int;
    assert(load * sc >= 0) by (nonlinear_arith)
        requires
            load >= 0,
            sc > 0,
    ;
    let d = (load * sc) / st;
    lemma_div_pos_is_pos(load * sc, st);
    assert(d <= load) by {
        vstd::arithmetic::div_mod::lemma_div_is_ordered_by_denominator(load * sc, sc, st);
        vstd::arithmetic::div_mod::lemma_div_by_multiple(load, sc);
        assert(load * sc == sc * load) by (nonlinear_arith);
    }
    assert(fx_div_s(load, st) == d);
    assert(susp_settle_s(s, load) == s.eq_length - d);
    assert(fx_mul_s(s.velocity as int, s.dampening as int) == 0) by {
        crate::fx::lemma_fx_mul_zero(s.dampening as int);
    }
    // how the spring term compares against the load at a displacement
    assert(d * st <= load * sc && load * sc < (d + 1) * st) by {
        lemma_fundamental_div_mod(load * sc, st);
        lemma_mod_bound(load * sc, st);
        assert(st * d == d * st) by (nonlinear_arith);
        assert((d + 1) * st == d * st + st) by (nonlinear_arith);
    }
    if s.length <= susp_settle_s(s, load) - 1 {
        // the displacement back to equilibrium is past the static one
        let dx = fx_sub_s(s.eq_length as int, s.length as int);
        assert(dx >= d + 1 || dx == FX_LIM);
        let spring = fx_mul_s(dx, st);
        if dx == FX_LIM && !(dx >= d + 1) {
            // the whole band: even one scale unit of stiffness covers the load
            assert(d == FX_LIM);
            assert(spring >= load) by {
                assert(dx * st >= dx * sc) by (nonlinear_arith)
                    requires
                        dx >= 0,
                        st >= sc,
                ;
                lemma_div_is_ordered(dx * sc, dx * st, sc);
                vstd::arithmetic::div_mod::lemma_div_by_multiple(dx, sc);
                assert(dx * sc == sc * dx) by (nonlinear_arith);
                lemma_div_pos_is_pos(dx * st, sc);
            }
        } else {
            assert(spring >= load) by {
                assert((d + 1) * st >= 0) by (nonlinear_arith)
                    requires
                        d >= 0,
                        st > 0,
                ;
                assert(dx * st >= (d + 1) * st) by (nonlinear_arith)
                    requires
                        dx >= d + 1,
                        st > 0,
                ;
                lemma_div_is_ordered((d + 1) * st, dx * st, sc);
                lemma_div_is_ordered(load * sc, (d + 1) * st, sc);
                vstd::arithmetic::div_mod::lemma_div_by_multiple(load, sc);
                assert(load * sc == sc * load) by (nonlinear_arith);
                lemma_div_pos_is_pos(dx * st, sc);
            }
        }
        assert(susp_net_force_s(s, load) >= 0);
    }
    if s.length >= susp_settle_s(s, load) + 1 {
        // the displacement falls short of the static one
        let dx = fx_sub_s(s.eq_length as int, s.length as int);
        assert(dx <= d - 1);
        let spring = fx_mul_s(dx, st);
        assert(spring < load) by {
            crate::fx::lemma_fx_mul_comm(dx, st);
            crate::fx::lemma_fx_mul_mono(st, dx, d - 1);
            crate::fx::lemma_fx_mul_comm(st, d - 1);
            assert(fx_mul_s(dx, st) <= fx_mul_s(d - 1, st));
            if d >= 1 {
                assert((d - 1) * st >= 0) by (nonlinear_arith)
                    requires
                        d >= 1,
                        st > 0,
                ;
                assert((d - 1) * st == d * st - st) by (nonlinear_arith);
                assert((d - 1) * st <= load * sc - st) by (nonlinear_arith)
                    requires
                        d * st <= load * sc,
                        (d - 1) * st == d * st - st,
                ;
                lemma_div_is_ordered((d - 1) * st, load * sc - st, sc);
                // (load sc - st) / sc <= load - 1 because st >= sc
                lemma_div_is_ordered(load * sc - st, load * sc - sc, sc);
                assert(load * sc - sc == (load - 1) * sc) by (nonlinear_arith);
                vstd::arithmetic::div_mod::lemma_div_by_multiple(load - 1, sc);
                assert((load - 1) * sc == sc * (load - 1)) by (nonlinear_arith);
            } else {
                assert(d == 0);
                assert(fx_mul_s(d - 1, st) < 0) by {
                    assert((-1) * st == -st) by (nonlinear_arith);
                    assert(div_down(-st, sc) == -(st / sc));
                    lemma_div_is_ordered(sc, st, sc);
                    vstd::arithmetic::div_mod::lemma_div_by_multiple(1, sc);
                    assert(1 * sc == sc) by (nonlinear_arith);
                }
            }
        }
        assert(susp_net_force_s(s, load) <= 0);
    }
}

/// At the settling length, with the corner at rest, one step leaves the
/// corner almost where it was: the velocity it picks up is at most a
/// rounding crumb of the stiffness, so the settling length is a fixed point
/// of the dynamics up to rounding. This is the equilibrium part of the
/// suspension convergence property.
pub proof fn lemma_susp_settle_fixed(s: Suspension, load: int, time: int, mass: int)
    requires
        s.wf(),
        s.stiffness >= SCALE,
        0 <= load <= FX_LIM,
        0 <= time <= SCALE,
        mass >= SCALE,
        fx_ok(mass),
        s.velocity == 0,
        s.length == susp_settle_s(s, load),
        // the static compression must not saturate
        fx_ok(s.eq_length - div_down(load * (SCALE as int), s.stiffness as int)),
    ensures
        abs_s(susp_vel_next_s(s, load, time, mass)) <= (s.stiffness as int) / (SCALE as int) + 2,
{
    let st = s.stiffness as int;
    let d = div_down(load * (SCALE as int), st);
    assert(load * (SCALE as int) >= 0) by (nonlinear_arith)
        requires
            load >= 0,
    ;
    assert(d == (load * (SCALE as int)) / st);
    lemma_div_pos_is_pos(load * (SCALE as int), st);
    assert(d <= FX_LIM) by {
        vstd::arithmetic::div_mod::lemma_div_is_ordered_by_denominator(
            load * (SCALE as int),
            SCALE as int,
            st,
        );
        vstd::arithmetic::div_mod::lemma_div_by_multiple(load, SCALE as int);
        assert(load * (SCALE as int) == (SCALE as int) * load) by (nonlinear_arith);
    }
    assert(fx_div_s(load, st) == d);
    // the settling length and the displacement back to equilibrium
    assert(s.length == sat(s.eq_length - d));
    assert(s.length == s.eq_length - d);
    let dx = fx_sub_s(s.eq_length as int, s.length as int);
    assert(dx == d);
    // the spring term reproduces the load up to one stiffness crumb
    let spring = fx_mul_s(dx, st);
    assert(st * d == d * st) by (nonlinear_arith);
    assert(d * st <= load * (SCALE as int)) by {
        lemma_fundamental_div_mod(load * (SCALE as int), st);
        lemma_mod_bound(load * (SCALE as int), st);
    }
    assert(load * (SCALE as int) < (d + 1) * st) by {
        lemma_fundamental_div_mod(load * (SCALE as int), st);
        lemma_mod_bound(load * (SCALE as int), st);
        assert((d + 1) * st == d * st + st) by (nonlinear_arith);
    }
    assert(d * st >= 0) by (nonlinear_arith)
        requires
            d >= 0,
            st > 0,
    ;
    let q = div_down(d * st, SCALE as int);
    assert(q == (d * st) / (SCALE as int));
    assert(q <= load) by {
        lemma_div_is_ordered(d * st, load * (SCALE as int), SCALE as int);
        vstd::arithmetic::div_mod::lemma_div_by_multiple(load, SCALE as int);
    }
    assert(load - st / (SCALE as int) - 1 <= q) by {
        // d*st > load*SCALE - st, so q >= (load*SCALE - st)/SCALE >= load - st/SCALE - 1
        assert((d + 1) * st == d * st + st) by (nonlinear_arith);
        assert(d * st > load * (SCALE as int) - st);
        lemma_div_is_ordered(load * (SCALE as int) - st, d * st, SCALE as int);
        lemma_fundamental_div_mod(load * (SCALE as int) - st, SCALE as int);
        lemma_mod_bound(load * (SCALE as int) - st, SCALE as int);
        lemma_fundamental_div_mod(st, SCALE as int);
        lemma_mod_bound(st, SCALE as int);
        vstd::arithmetic::div_mod::lemma_div_by_multiple(load, SCALE as int);
        assert((load * (SCALE as int) - st) / (SCALE as int) >= load - st / (SCALE as int) - 1)
            by (nonlinear_arith)
            requires
                load * (SCALE as int) - st == (SCALE as int) * ((load * (SCALE as int) - st) / (
                SCALE as int)) + (load * (SCALE as int) - st) % (SCALE as int),
                0 <= (load * (SCALE as int) - st) % (SCALE as int) < SCALE as int,
                st == (SCALE as int) * (st / (SCALE as int)) + st % (SCALE as int),
                0 <= st % (SCALE as int) < SCALE as int,
        ;
    }
    assert(0 <= q <= FX_LIM);
    assert(spring == q);
    // net force: -load + spring, damping term is zero at rest
    assert(fx_mul_s(s.velocity as int, s.dampening as int) == 0) by {
        crate::fx::lemma_fx_mul_zero(s.dampening as int);
    }
    let net = susp_net_force_s(s, load);
    assert(net == sat(sat(-load + q) - 0));
    assert(-(st / (SCALE as int)) - 1 <= net <= 0);
    // the acceleration and the picked-up velocity shrink further
    let acc = fx_div_s(net, mass);
    assert(abs_s(acc) <= abs_s(net)) by {
        let an = abs_s(net);
        assert(an * (SCALE as int) <= an * mass) by (nonlinear_arith)
            requires
                an >= 0,
                mass >= SCALE as int,
        ;
        lemma_div_is_ordered(an * (SCALE as int), an * mass, mass);
        vstd::arithmetic::div_mod::lemma_div_by_multiple(an, mass);
        assert(an * (SCALE as int) >= 0) by (nonlinear_arith)
            requires
                an >= 0,
        ;
        lemma_div_pos_is_pos(an * (SCALE as int), mass);
    }
    let dv = fx_mul_s(acc, time);
    assert(abs_s(dv) <= abs_s(acc)) by {
        let aa = abs_s(acc);
        assert(abs_s(acc * time) == aa * time) by (nonlinear_arith)
            requires
                aa == abs_s(acc),
                time >= 0,
        ;
        assert(aa * time <= aa * (SCALE as int)) by (nonlinear_arith)
            requires
                aa >= 0,
                time <= SCALE as int,
        ;
        lemma_div_is_ordered(aa * time, aa * (SCALE as int), SCALE as int);
        vstd::arithmetic::div_mod::lemma_div_by_multiple(aa, SCALE as int);
        assert(aa * time >= 0) by (nonlinear_arith)
            requires
                aa >= 0,
                time >= 0,
        ;
        lemma_div_pos_is_pos(aa * time, SCALE as int);
        if acc >= 0 {
            assert(div_down(acc * time, SCALE as int) == (aa * time) / (SCALE as int));
        } else {
            assert(acc * time <= 0) by (nonlinear_arith)
                requires
                    acc < 0,
                    time >= 0,
            ;
            assert(-(acc * time) == aa * time) by (nonlinear_arith)
                requires
                    aa == -acc,
            ;
        }
    }
    assert(susp_vel_next_s(s, load, time, mass) == sat(0 + dv));
}

} // verus!
