//! The immutable per-car tuning set: masses, geometry, tire and engine
//! constants. A config is drawn once at spawn, with bounded random jitter
//! around the nominal tuning.

use vstd::prelude::*;

verus! {

use crate::fx::{
    SCALE,
    FX_LIM,
    fx_ok,
    fx_add_s,
    fx_mul_s,
    fx_add,
    fx_mul,
    lemma_fx_mul_mono,
    lemma_fx_mul_one,
};
use crate::rng::rand_centered_fx;
use crate::vec::Vec3Fx;

/// The immutable tuning set of one car. All values are fixed-point.
#[derive(Clone, Copy, Debug, PartialEq, Eq, Structural)]
pub struct CarConfig {
    /// m/s^2
    pub gravity: i64,
    /// kg
    pub mass: i64,
    /// mass * ratio = inertia
    pub inertia_ratio: i64,
    /// width of car body (m)
    pub width: i64,
    /// center of gravity to front (m)
    pub cg_to_front: i64,
    /// center of gravity to rear (m)
    pub cg_to_rear: i64,
    /// center of gravity to front axle (m)
    pub cg_to_front_axle: i64,
    /// center of gravity to rear axle (m)
    pub cg_to_rear_axle: i64,
    /// height of CG above axles (m)
    pub cg_height: i64,
    /// radius of wheels (m)
    pub wheel_radius: i64,
    /// width of wheels (m)
    pub wheel_width: i64,
    /// grip of tires (ratio)
    pub tire_grip: i64,
    /// fraction of grip available when a wheel is locked
    pub lock_grip: i64,
    /// force exerted by the engine on the tires (N)
    pub engine_force: i64,
    /// braking force (N)
    pub brake_force: i64,
    /// hand brake force (N)
    pub hand_break_force: i64,
    /// how much weight is transferred during acceleration (ratio)
    pub weight_transfer: i64,
    /// maximum steering angle (rad)
    pub max_steer: i64,
    /// cornering stiffness of front wheels (N/rad)
    pub corner_stiffness_front: i64,
    /// cornering stiffness of rear wheels (N/rad)
    pub corner_stiffness_rear: i64,
    /// unitless
    pub air_resistance: i64,
    /// unitless
    pub roll_resistance: i64,
    /// m
    pub body_height: i64,
}

/// What the wheel base is: the distance between the axles.
pub open spec fn wheel_base_s(c: CarConfig) -> int {
    fx_add_s(c.cg_to_front_axle as int, c.cg_to_rear_axle as int)
}

impl CarConfig {
    /// The tuning set is physically meaningful: everything representable,
    /// masses and lengths at least one unit, ratios nonnegative.
    pub open spec fn wf(self) -> bool {
        &&& fx_ok(self.gravity as int)
        &&& fx_ok(self.mass as int)
        &&& fx_ok(self.inertia_ratio as int)
        &&& fx_ok(self.width as int)
        &&& fx_ok(self.cg_to_front as int)
        &&& fx_ok(self.cg_to_rear as int)
        &&& fx_ok(self.cg_to_front_axle as int)
        &&& fx_ok(self.cg_to_rear_axle as int)
        &&& fx_ok(self.cg_height as int)
        &&& fx_ok(self.wheel_radius as int)
        &&& fx_ok(self.wheel_width as int)
        &&& fx_ok(self.tire_grip as int)
        &&& fx_ok(self.lock_grip as int)
        &&& fx_ok(self.engine_force as int)
        &&& fx_ok(self.brake_force as int)
        &&& fx_ok(self.hand_break_force as int)
        &&& fx_ok(self.weight_transfer as int)
        &&& fx_ok(self.max_steer as int)
        &&& fx_ok(self.corner_stiffness_front as int)
        &&& fx_ok(self.corner_stiffness_rear as int)
        &&& fx_ok(self.air_resistance as int)
        &&& fx_ok(self.roll_resistance as int)
        &&& fx_ok(self.body_height as int)
        &&& self.mass >= SCALE
        &&& self.gravity >= 0
        &&& self.inertia_ratio > 0
        &&& self.cg_to_front_axle > 0
        &&& self.cg_to_rear_axle > 0
        &&& self.cg_to_front_axle + self.cg_to_rear_axle <= FX_LIM
        &&& self.cg_height >= 0
        &&& self.wheel_radius > 0
        &&& self.tire_grip >= 0
        &&& self.engine_force >= 0
        &&& self.brake_force >= 0
        &&& self.hand_break_force >= 0
        &&& self.weight_transfer >= 0
        &&& self.max_steer >= 0
        &&& self.corner_stiffness_front >= 0
        &&& self.corner_stiffness_rear >= 0
        &&& self.air_resistance >= 0
        &&& self.roll_resistance >= 0
    }

    /// The distance between the axles.
    pub fn wheel_base(&self) -> (r: i64)
        requires
            self.wf(),
        ensures
            r == wheel_base_s(*self),
            0 < r <= FX_LIM,
    {
        fx_add(self.cg_to_front_axle, self.cg_to_rear_axle)
    }

    /// The body's bounding size: length, height, width.
    pub fn body_size(&self) -> (r: Vec3Fx)
        requires
            self.wf(),
        ensures
            r.x == fx_add_s(self.cg_to_front as int, self.cg_to_rear as int),
            r.y == self.body_height,
            r.z == self.width,
            r.wf(),
    {
        Vec3Fx {
            x: fx_add(self.cg_to_front, self.cg_to_rear),
            y: self.body_height,
            z: self.width,
        }
    }
}

/// A randomized multiple of `base`: the factor is drawn from
/// `[1 - spread, 1 + spread]`. With zero spread the result is exactly
/// `base`.
pub fn jittered(base: i64, spread: i64) -> (r: i64)
    requires
        0 <= base <= FX_LIM,
        0 <= spread <= SCALE,
    ensures
        fx_mul_s(base as int, (SCALE - spread) as int) <= r <= fx_mul_s(
            base as int,
            (SCALE + spread) as int,
        ),
        spread == 0 ==> r == base,
        fx_ok(r as int),
        r >= 0,
{
    let wobble: i64 = rand_centered_fx(spread);
    let f: i64 = fx_add(SCALE, wobble);
    assert(SCALE - spread <= f <= SCALE + spread);
    let r: i64 = fx_mul(base, f);
    proof {
        lemma_fx_mul_mono(base as int, (SCALE - spread) as int, f as int);
        lemma_fx_mul_mono(base as int, f as int, (SCALE + spread) as int);
        lemma_fx_mul_mono(base as int, 0, (SCALE - spread) as int);
        crate::fx::lemma_fx_mul_zero(base as int);
        assert(0 * (base as int) == 0) by (nonlinear_arith);
        if spread == 0 {
            lemma_fx_mul_one(base as int);
        }
    }
    r
}

} // verus!
