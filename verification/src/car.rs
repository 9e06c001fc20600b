//! The mutable per-car state: pose, motion, control inputs and suspension
//! corners, together with its spawn constructor and derived getters. The
//! physical fields are mutated only by the integrator.

use vstd::prelude::*;

verus! {

use crate::config::{CarConfig, wheel_base_s, jittered};
use crate::fx::{
    SCALE,
    FX_LIM,
    fx_ok,
    fx_add_s,
    fx_sub_s,
    fx_mul_s,
    fx_div_s,
    fx_mul,
    fx_div,
    fx_add,
    fx_sub,
};
use crate::suspension::Suspension;
use crate::trig::{sin_s, cos_s, atan2_s, sin_fx, cos_fx, atan2_fx};
use crate::vec::{Vec2Fx, Vec3Fx, len2_s};

/// The largest spawn randomization the constructor accepts (a quarter).
pub const MAX_RANDOMNESS: i64 = 16384;

/// What the speed of a car is: the length of its velocity.
pub open spec fn speed_s(car: CarComponent) -> int {
    len2_s(car.velocity.x as int, car.velocity.y as int)
}

/// The state of one car.
#[derive(Clone, Copy, Debug)]
pub struct CarComponent {
    pub config: CarConfig,
    /// direction of car (rad)
    pub heading: i64,
    /// world coordinates
    pub position: Vec2Fx,
    /// height of the terrain below the car
    pub terrain_height: i64,
    /// world coordinates
    pub velocity: Vec2Fx,
    /// world coordinates
    pub acceleration: Vec2Fx,
    /// rad/s
    pub angular_velocity: i64,
    /// rad
    pub wheel_roll: i64,
    /// in [-1,1]
    pub steer: i64,
    /// in [0,1]
    pub throttle: i64,
    /// in [0,1]
    pub brake: i64,
    pub rear_susp: Suspension,
    pub front_susp: Suspension,
}

impl CarComponent {
    /// Everything representable, the controls within their bands.
    pub open spec fn wf(self) -> bool {
        &&& self.config.wf()
        &&& fx_ok(self.heading as int)
        &&& self.position.wf()
        &&& fx_ok(self.terrain_height as int)
        &&& self.velocity.wf()
        &&& self.acceleration.wf()
        &&& fx_ok(self.angular_velocity as int)
        &&& fx_ok(self.wheel_roll as int)
        &&& fx_ok(self.steer as int)
        &&& 0 <= self.throttle <= SCALE
        &&& 0 <= self.brake <= SCALE
        &&& self.rear_susp.wf()
        &&& self.front_susp.wf()
    }

    /// A freshly spawned car at the given pose, at rest, with the stiff
    /// tuning set jittered by `randomness`. With zero randomness the
    /// tuning is exactly the nominal one.
    pub fn new_stiff(init_heading: i64, init_position: Vec2Fx, randomness: i64) -> (car:
        CarComponent)
        requires
            fx_ok(init_heading as int),
            init_position.wf(),
            0 <= randomness <= MAX_RANDOMNESS,
        ensures
            car.wf(),
            car.heading == init_heading,
            car.position == init_position,
            car.velocity.x == 0 && car.velocity.y == 0,
            car.acceleration.x == 0 && car.acceleration.y == 0,
            car.angular_velocity == 0,
            car.wheel_roll == 0,
            car.steer == 0 && car.throttle == 0 && car.brake == 0,
            car.terrain_height == 0,
            // the stiff suspension tuning: front corner, then the slightly
            // longer and softer rear corner
            car.front_susp == (Suspension {
                eq_length: 0,
                length: 0,
                velocity: 0,
                dampening: 163840000,
                stiffness: 2752512000,
            }),
            car.rear_susp == (Suspension {
                eq_length: 3276,
                length: 3276,
                velocity: 0,
                dampening: 144179200,
                stiffness: 2228224000,
            }),
            // every tuning field stays within its jitter band
            spawn_config_banded(car.config, randomness as int),
            randomness == 0 ==> car.config == nominal_stiff_config(),
    {
        // the better-controlled quantities get a tenth of the jitter
        let small: i64 = ((randomness as u64) / 10) as i64;
        proof {
            vstd::arithmetic::div_mod::lemma_div_nonincreasing(randomness as int, 10);
        }
        assert(0 <= small <= randomness);
        // one correlated size factor scales the whole body
        let scale_f: i64 = jittered(91750, small);
        let config = CarConfig {
            gravity: jittered(655360, small),
            mass: jittered(98304000, randomness),
            inertia_ratio: jittered(19660, small),
            width: fx_mul(117964, scale_f),
            cg_to_front: fx_mul(133693, scale_f),
            cg_to_rear: fx_mul(133693, scale_f),
            cg_to_front_axle: fx_mul(74055, scale_f),
            cg_to_rear_axle: fx_mul(84541, scale_f),
            cg_height: jittered(36044, randomness),
            wheel_radius: jittered(29491, small),
            wheel_width: jittered(9830, small),
            tire_grip: jittered(327680, randomness),
            lock_grip: jittered(45875, randomness),
            engine_force: jittered(524288000, randomness),
            brake_force: jittered(786432000, randomness),
            hand_break_force: jittered(314572800, randomness),
            weight_transfer: jittered(13107, randomness),
            max_steer: jittered(45875, randomness),
            corner_stiffness_front: jittered(917504, randomness),
            corner_stiffness_rear: jittered(930611, randomness),
            air_resistance: jittered(163840, randomness),
            roll_resistance: jittered(655360, randomness),
            body_height: fx_mul(65536, scale_f),
        };
        proof {
            lemma_nominal_bounds(
                config,
                scale_f as int,
                randomness as int,
                small as int,
            );
        }
        CarComponent {
            config,
            heading: init_heading,
            position: init_position,
            terrain_height: 0,
            velocity: Vec2Fx { x: 0, y: 0 },
            acceleration: Vec2Fx { x: 0, y: 0 },
            angular_velocity: 0,
            steer: 0,
            throttle: 0,
            brake: 0,
            front_susp: Suspension::new(0, 163840000, 2752512000),
            rear_susp: Suspension::new(3276, 144179200, 2228224000),
            wheel_roll: 0,
        }
    }

    /// The pose the persistence layer records: heading and position.
    pub fn spatial_state(&self) -> (r: (i64, Vec2Fx))
        ensures
            r.0 == self.heading,
            r.1 == self.position,
    {
        (self.heading, self.position)
    }

    /// Current speed: the length of the velocity.
    pub fn speed(&self) -> (r: i64)
        requires
            self.wf(),
        ensures
            r == speed_s(*self),
            0 <= r <= FX_LIM,
    {
        self.velocity.length()
    }

    /// The unit vector the car points along.
    pub fn dir(&self) -> (r: Vec2Fx)
        requires
            self.wf(),
        ensures
            r.x == cos_s(self.heading as int),
            r.y == sin_s(self.heading as int),
            r.wf(),
            -SCALE <= r.x <= SCALE,
            -SCALE <= r.y <= SCALE,
    {
        Vec2Fx { x: cos_fx(self.heading), y: sin_fx(self.heading) }
    }

    /// The pointing direction lifted into the ground plane of space.
    pub fn dir3(&self) -> (r: Vec3Fx)
        requires
            self.wf(),
        ensures
            r.x == cos_s(self.heading as int),
            r.y == 0,
            r.z == sin_s(self.heading as int),
            r.wf(),
    {
        let d = self.dir();
        Vec3Fx { x: d.x, y: 0, z: d.y }
    }

    /// The unit vector to the car's side: the pointing direction turned a
    /// quarter turn.
    pub fn right(&self) -> (r: Vec2Fx)
        requires
            self.wf(),
        ensures
            r.x == -sin_s(self.heading as int),
            r.y == cos_s(self.heading as int),
            r.wf(),
            -SCALE <= r.x <= SCALE,
            -SCALE <= r.y <= SCALE,
    {
        self.dir().perp()
    }

    /// The sideways direction lifted into the ground plane of space.
    pub fn right3(&self) -> (r: Vec3Fx)
        requires
            self.wf(),
        ensures
            r.x == -sin_s(self.heading as int),
            r.y == 0,
            r.z == cos_s(self.heading as int),
            r.wf(),
    {
        let r2 = self.right();
        Vec3Fx { x: r2.x, y: 0, z: r2.y }
    }

    /// The car's position in space, at the height of the terrain below it.
    pub fn pos3(&self) -> (r: Vec3Fx)
        requires
            self.wf(),
        ensures
            r.x == self.position.x,
            r.y == self.terrain_height,
            r.z == self.position.y,
            r.wf(),
    {
        Vec3Fx { x: self.position.x, y: self.terrain_height, z: self.position.y }
    }

    /// The angle the steered wheels are turned by.
    pub fn wheel_turn(&self) -> (r: i64)
        requires
            self.wf(),
        ensures
            r == fx_mul_s(self.config.max_steer as int, self.steer as int),
            fx_ok(r as int),
    {
        fx_mul(self.config.max_steer, self.steer)
    }

    /// How high the body rides and how far it pitches: the mean
    /// suspension length above the wheels, and the angle the length
    /// difference subtends over the wheel base.
    pub fn body_pose(&self) -> (r: (i64, i64))
        requires
            self.wf(),
        ensures
            r.0 == fx_add_s(
                fx_div_s(
                    fx_add_s(self.front_susp.length as int, self.rear_susp.length as int),
                    2 * SCALE,
                ),
                self.config.wheel_radius as int,
            ),
            r.1 == atan2_s(
                fx_sub_s(self.front_susp.length as int, self.rear_susp.length as int),
                wheel_base_s(self.config),
            ),
    {
        let height: i64 = fx_add(
            fx_div(fx_add(self.front_susp.length, self.rear_susp.length), 2 * SCALE),
            self.config.wheel_radius,
        );
        let pitch: i64 = atan2_fx(
            fx_sub(self.front_susp.length, self.rear_susp.length),
            self.config.wheel_base(),
        );
        (height, pitch)
    }

    /// Put the car back at the origin at rest, as the reset key does.
    pub fn reset(&mut self)
        requires
            old(self).wf(),
        ensures
            final(self).wf(),
            final(self).position.x == 0 && final(self).position.y == 0,
            final(self).velocity.x == 0 && final(self).velocity.y == 0,
            final(self).acceleration.x == 0 && final(self).acceleration.y == 0,
            final(self).heading == 0,
            final(self).angular_velocity == 0,
            final(self).config == old(self).config,
            final(self).steer == old(self).steer,
            final(self).throttle == old(self).throttle,
            final(self).brake == old(self).brake,
            final(self).wheel_roll == old(self).wheel_roll,
            final(self).terrain_height == old(self).terrain_height,
            final(self).front_susp == old(self).front_susp,
            final(self).rear_susp == old(self).rear_susp,
    {
        self.position = Vec2Fx { x: 0, y: 0 };
        self.velocity = Vec2Fx { x: 0, y: 0 };
        self.acceleration = Vec2Fx { x: 0, y: 0 };
        self.heading = 0;
        self.angular_velocity = 0;
    }
}

/// The nominal stiff tuning set: what spawning with zero randomness gives.
pub open spec fn nominal_stiff_config() -> CarConfig {
    CarConfig {
        gravity: 655360,
        mass: 98304000,
        inertia_ratio: 19660,
        width: 165148,
        cg_to_front: 187169,
        cg_to_rear: 187169,
        cg_to_front_axle: 103676,
        cg_to_rear_axle: 118356,
        cg_height: 36044,
        wheel_radius: 29491,
        wheel_width: 9830,
        tire_grip: 327680,
        lock_grip: 45875,
        engine_force: 524288000,
        brake_force: 786432000,
        hand_break_force: 314572800,
        weight_transfer: 13107,
        max_steer: 45875,
        corner_stiffness_front: 917504,
        corner_stiffness_rear: 930611,
        air_resistance: 163840,
        roll_resistance: 655360,
        body_height: 91750,
    }
}

/// A jittered quantity lies within the stated relative band around its
/// nominal value, and is a representable nonnegative amount.
pub open spec fn banded(v: int, base: int, spread: int) -> bool {
    &&& fx_mul_s(base, (SCALE - spread) as int) <= v <= fx_mul_s(base, (SCALE + spread) as int)
    &&& v >= 0
    &&& fx_ok(v)
}

/// A body measurement lies within the band the correlated size factor
/// (nominal 1.4, jittered by `small`) allows for its unit length.
pub open spec fn scale_banded(v: int, unit: int, small: int) -> bool {
    fx_mul_s(unit, fx_mul_s(91750, (SCALE - small) as int)) <= v <= fx_mul_s(
        unit,
        fx_mul_s(91750, (SCALE + small) as int),
    )
}

/// Every field of a spawned tuning set lies within its jitter band around
/// the nominal value: the full spread for the loosely controlled
/// quantities, a tenth of it for the better-controlled ones, and the body
/// geometry within the size factor's band.
pub open spec fn spawn_config_banded(c: CarConfig, randomness: int) -> bool {
    let small = randomness / 10;
    &&& banded(c.gravity as int, 655360, small)
    &&& banded(c.mass as int, 98304000, randomness)
    &&& banded(c.inertia_ratio as int, 19660, small)
    &&& scale_banded(c.width as int, 117964, small)
    &&& scale_banded(c.cg_to_front as int, 133693, small)
    &&& scale_banded(c.cg_to_rear as int, 133693, small)
    &&& scale_banded(c.cg_to_front_axle as int, 74055, small)
    &&& scale_banded(c.cg_to_rear_axle as int, 84541, small)
    &&& banded(c.cg_height as int, 36044, randomness)
    &&& banded(c.wheel_radius as int, 29491, small)
    &&& banded(c.wheel_width as int, 9830, small)
    &&& banded(c.tire_grip as int, 327680, randomness)
    &&& banded(c.lock_grip as int, 45875, randomness)
    &&& banded(c.engine_force as int, 524288000, randomness)
    &&& banded(c.brake_force as int, 786432000, randomness)
    &&& banded(c.hand_break_force as int, 314572800, randomness)
    &&& banded(c.weight_transfer as int, 13107, randomness)
    &&& banded(c.max_steer as int, 45875, randomness)
    &&& banded(c.corner_stiffness_front as int, 917504, randomness)
    &&& banded(c.corner_stiffness_rear as int, 930611, randomness)
    &&& banded(c.air_resistance as int, 163840, randomness)
    &&& banded(c.roll_resistance as int, 655360, randomness)
    &&& scale_banded(c.body_height as int, 65536, small)
}

/// The jittered tuning set is well-formed, and exactly nominal when the
/// randomization spreads are zero.
proof fn lemma_nominal_bounds(c: CarConfig, scale_f: int, randomness: int, small: int)
    requires
        0 <= randomness <= MAX_RANDOMNESS,
        small == randomness / 10,
        banded(scale_f, 91750, small),
        small == 0 ==> scale_f == 91750,
        banded(c.gravity as int, 655360, small),
        banded(c.mass as int, 98304000, randomness),
        banded(c.inertia_ratio as int, 19660, small),
        banded(c.cg_height as int, 36044, randomness),
        banded(c.wheel_radius as int, 29491, small),
        banded(c.wheel_width as int, 9830, small),
        banded(c.tire_grip as int, 327680, randomness),
        banded(c.lock_grip as int, 45875, randomness),
        banded(c.engine_force as int, 524288000, randomness),
        banded(c.brake_force as int, 786432000, randomness),
        banded(c.hand_break_force as int, 314572800, randomness),
        banded(c.weight_transfer as int, 13107, randomness),
        banded(c.max_steer as int, 45875, randomness),
        banded(c.corner_stiffness_front as int, 917504, randomness),
        banded(c.corner_stiffness_rear as int, 930611, randomness),
        banded(c.air_resistance as int, 163840, randomness),
        banded(c.roll_resistance as int, 655360, randomness),
        randomness == 0 ==> c.gravity == 655360 && c.mass == 98304000 && c.inertia_ratio == 19660
            && c.cg_height == 36044 && c.wheel_radius == 29491 && c.wheel_width == 9830
            && c.tire_grip == 327680 && c.lock_grip == 45875 && c.engine_force == 524288000
            && c.brake_force == 786432000 && c.hand_break_force == 314572800
            && c.weight_transfer == 13107 && c.max_steer == 45875
            && c.corner_stiffness_front == 917504 && c.corner_stiffness_rear == 930611
            && c.air_resistance == 163840 && c.roll_resistance == 655360,
        c.width == fx_mul_s(117964, scale_f),
        c.cg_to_front == fx_mul_s(133693, scale_f),
        c.cg_to_rear == fx_mul_s(133693, scale_f),
        c.cg_to_front_axle == fx_mul_s(74055, scale_f),
        c.cg_to_rear_axle == fx_mul_s(84541, scale_f),
        c.body_height == fx_mul_s(65536, scale_f),
        fx_ok(c.width as int),
        fx_ok(c.cg_to_front as int),
        fx_ok(c.cg_to_rear as int),
        fx_ok(c.cg_to_front_axle as int),
        fx_ok(c.cg_to_rear_axle as int),
        fx_ok(c.body_height as int),
    ensures
        c.wf(),
        spawn_config_banded(c, randomness),
        randomness == 0 ==> c == nominal_stiff_config(),
{
    assert(0 <= small <= randomness) by {
        vstd::arithmetic::div_mod::lemma_div_nonincreasing(randomness, 10);
        vstd::arithmetic::div_mod::lemma_div_pos_is_pos(randomness, 10);
    }
    // the body measurements inherit the size factor's band
    assert(fx_mul_s(117964, fx_mul_s(91750, (SCALE - small) as int)) <= c.width <= fx_mul_s(
        117964,
        fx_mul_s(91750, (SCALE + small) as int),
    )) by {
        crate::fx::lemma_fx_mul_mono(117964, fx_mul_s(91750, (SCALE - small) as int), scale_f);
        crate::fx::lemma_fx_mul_mono(117964, scale_f, fx_mul_s(91750, (SCALE + small) as int));
    }
    assert(fx_mul_s(133693, fx_mul_s(91750, (SCALE - small) as int)) <= c.cg_to_front <= fx_mul_s(
        133693,
        fx_mul_s(91750, (SCALE + small) as int),
    )) by {
        crate::fx::lemma_fx_mul_mono(133693, fx_mul_s(91750, (SCALE - small) as int), scale_f);
        crate::fx::lemma_fx_mul_mono(133693, scale_f, fx_mul_s(91750, (SCALE + small) as int));
    }
    assert(fx_mul_s(74055, fx_mul_s(91750, (SCALE - small) as int)) <= c.cg_to_front_axle
        <= fx_mul_s(74055, fx_mul_s(91750, (SCALE + small) as int))) by {
        crate::fx::lemma_fx_mul_mono(74055, fx_mul_s(91750, (SCALE - small) as int), scale_f);
        crate::fx::lemma_fx_mul_mono(74055, scale_f, fx_mul_s(91750, (SCALE + small) as int));
    }
    assert(fx_mul_s(84541, fx_mul_s(91750, (SCALE - small) as int)) <= c.cg_to_rear_axle
        <= fx_mul_s(84541, fx_mul_s(91750, (SCALE + small) as int))) by {
        crate::fx::lemma_fx_mul_mono(84541, fx_mul_s(91750, (SCALE - small) as int), scale_f);
        crate::fx::lemma_fx_mul_mono(84541, scale_f, fx_mul_s(91750, (SCALE + small) as int));
    }
    assert(fx_mul_s(65536, fx_mul_s(91750, (SCALE - small) as int)) <= c.body_height <= fx_mul_s(
        65536,
        fx_mul_s(91750, (SCALE + small) as int),
    )) by {
        crate::fx::lemma_fx_mul_mono(65536, fx_mul_s(91750, (SCALE - small) as int), scale_f);
        crate::fx::lemma_fx_mul_mono(65536, scale_f, fx_mul_s(91750, (SCALE + small) as int));
    }
    assert(fx_mul_s(98304000, (SCALE - MAX_RANDOMNESS) as int) == 73728000);
    assert(c.mass >= 73728000) by {
        crate::fx::lemma_fx_mul_mono(
            98304000,
            (SCALE - MAX_RANDOMNESS) as int,
            (SCALE - randomness) as int,
        );
    }
    assert(fx_mul_s(19660, (SCALE - MAX_RANDOMNESS) as int) == 14745);
    assert(c.inertia_ratio >= 14745) by {
        crate::fx::lemma_fx_mul_mono(
            19660,
            (SCALE - MAX_RANDOMNESS) as int,
            (SCALE - small) as int,
        );
    }
    assert(fx_mul_s(91750, (SCALE - MAX_RANDOMNESS) as int) == 68812);
    assert(scale_f >= 68812) by {
        crate::fx::lemma_fx_mul_mono(
            91750,
            (SCALE - MAX_RANDOMNESS) as int,
            (SCALE - small) as int,
        );
    }
    assert(fx_mul_s(91750, (SCALE + MAX_RANDOMNESS) as int) == 114687);
    assert(scale_f <= 114687) by {
        crate::fx::lemma_fx_mul_mono(
            91750,
            (SCALE + small) as int,
            (SCALE + MAX_RANDOMNESS) as int,
        );
    }
    assert(c.cg_to_front_axle >= fx_mul_s(74055, 68812)) by {
        crate::fx::lemma_fx_mul_mono(74055, 68812, scale_f);
    }
    assert(fx_mul_s(74055, 68812) == 77756);
    assert(c.cg_to_rear_axle >= fx_mul_s(84541, 68812)) by {
        crate::fx::lemma_fx_mul_mono(84541, 68812, scale_f);
    }
    assert(fx_mul_s(84541, 68812) == 88767);
    assert(c.cg_to_front_axle <= fx_mul_s(74055, 114687)) by {
        crate::fx::lemma_fx_mul_mono(74055, scale_f, 114687);
    }
    assert(c.cg_to_rear_axle <= fx_mul_s(84541, 114687)) by {
        crate::fx::lemma_fx_mul_mono(84541, scale_f, 114687);
    }
    assert(fx_mul_s(74055, 114687) + fx_mul_s(84541, 114687) <= FX_LIM);
    assert(c.width >= 0) by {
        crate::fx::lemma_fx_mul_mono(117964, 0, scale_f);
        assert(117964 * 0 == 0) by (nonlinear_arith);
    }
    assert(c.cg_to_front >= 0 && c.cg_to_rear >= 0) by {
        crate::fx::lemma_fx_mul_mono(133693, 0, scale_f);
        assert(133693 * 0 == 0) by (nonlinear_arith);
    }
    assert(c.body_height >= 0) by {
        crate::fx::lemma_fx_mul_mono(65536, 0, scale_f);
        assert(65536 * 0 == 0) by (nonlinear_arith);
    }
    assert(fx_mul_s(29491, (SCALE - MAX_RANDOMNESS) as int) == 22118);
    assert(c.wheel_radius >= 22118) by {
        crate::fx::lemma_fx_mul_mono(
            29491,
            (SCALE - MAX_RANDOMNESS) as int,
            (SCALE - small) as int,
        );
    }
    if randomness == 0 {
        assert(small == 0);
        assert(c.width == fx_mul_s(117964, 91750) == 165148);
        assert(c.cg_to_front == fx_mul_s(133693, 91750) == 187169);
        assert(c.cg_to_front_axle == fx_mul_s(74055, 91750) == 103676);
        assert(c.cg_to_rear_axle == fx_mul_s(84541, 91750) == 118356);
        assert(c.body_height == fx_mul_s(65536, 91750) == 91750);
    }
}

} // verus!
