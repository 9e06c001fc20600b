//! The per-frame vehicle integrator: a slip-angle tire model and a
//! longitudinal traction/drag model feeding an explicit-Euler state update
//! with a low-speed and a high-speed regime.
//!
//! Every stage is named by a spec function, and `CarComponent::update`
//! proves that the state after a frame equals the composition of those
//! stages.

use vstd::prelude::*;

verus! {

use crate::car::{CarComponent, speed_s};
use crate::config::{CarConfig, wheel_base_s};
use crate::fx::{
    SCALE,
    FX_LIM,
    fx_ok,
    sat,
    abs_s,
    sgn_s,
    clamp_s,
    fx_add_s,
    fx_sub_s,
    fx_mul_s,
    fx_div_s,
    fx_add,
    fx_sub,
    fx_mul,
    fx_div,
    fx_abs,
    fx_neg,
    fx_clamp,
};
use crate::suspension::{susp_vel_next_s, susp_len_next_s};
use vstd::arithmetic::div_mod::{
    lemma_fundamental_div_mod,
    lemma_mod_bound,
    lemma_div_is_ordered,
    lemma_div_by_multiple,
    lemma_div_pos_is_pos,
};
use crate::trig::{sin_s, cos_s, atan2_s, sin_fx, cos_fx, atan2_fx, HALF_PI_FX, PI_FX};
use crate::vec::{Vec2Fx, dot_s, len2_s};

/// Below this speed the integrator uses the kinematic low-speed scheme;
/// a tunable, with no hysteresis around it.
pub const LOW_SPEED_T: i64 = 917504;

/// Below this speed, with no throttle, the car is held still rather than
/// allowed to creep.
pub const CREEP_T: i64 = 13107;

/// Speed constant of the steering attenuation `steer / (1 + speed / 60)`.
pub const STEER_FALLOFF: i64 = 3932160;

/// The car's yaw inertia.
pub open spec fn inertia_s(c: CarConfig) -> int {
    fx_mul_s(c.mass as int, c.inertia_ratio as int)
}

/// The steering angle actually applied: the wheel angle attenuated with
/// speed.
pub open spec fn steer_angle_s(car: CarComponent) -> int {
    fx_div_s(
        fx_mul_s(car.config.max_steer as int, car.steer as int),
        fx_add_s(SCALE as int, fx_div_s(speed_s(car), STEER_FALLOFF as int)),
    )
}

/// Velocity along the car's pointing direction.
pub open spec fn vel_long_s(car: CarComponent) -> int {
    dot_s(
        car.velocity.x as int,
        car.velocity.y as int,
        cos_s(car.heading as int),
        sin_s(car.heading as int),
    )
}

/// Velocity along the car's sideways direction.
pub open spec fn vel_lat_s(car: CarComponent) -> int {
    dot_s(
        car.velocity.x as int,
        car.velocity.y as int,
        -sin_s(car.heading as int),
        cos_s(car.heading as int),
    )
}

/// Longitudinal component of the previous frame's acceleration; it drives
/// the weight transfer.
pub open spec fn acc_long_s(car: CarComponent) -> int {
    dot_s(
        car.acceleration.x as int,
        car.acceleration.y as int,
        cos_s(car.heading as int),
        sin_s(car.heading as int),
    )
}

/// The weight shifted between the axles by longitudinal acceleration.
pub open spec fn wt_term_s(car: CarComponent) -> int {
    fx_div_s(
        fx_mul_s(fx_mul_s(car.config.weight_transfer as int, acc_long_s(car)), car.config.cg_height as int),
        wheel_base_s(car.config),
    )
}

/// The weight the front axle bears.
pub open spec fn axle_weight_front_s(car: CarComponent) -> int {
    fx_mul_s(
        car.config.mass as int,
        fx_sub_s(
            fx_mul_s(
                fx_div_s(car.config.cg_to_rear_axle as int, wheel_base_s(car.config)),
                car.config.gravity as int,
            ),
            wt_term_s(car),
        ),
    )
}

/// The weight the rear axle bears.
pub open spec fn axle_weight_rear_s(car: CarComponent) -> int {
    fx_mul_s(
        car.config.mass as int,
        fx_add_s(
            fx_mul_s(
                fx_div_s(car.config.cg_to_front_axle as int, wheel_base_s(car.config)),
                car.config.gravity as int,
            ),
            wt_term_s(car),
        ),
    )
}

/// The front slip angle before folding: wheel velocity direction against
/// wheel pointing direction, the steering term applied on the front axle.
pub open spec fn slip_front_raw_s(car: CarComponent) -> int {
    fx_sub_s(
        atan2_s(
            fx_add_s(vel_lat_s(car), fx_mul_s(car.config.cg_to_front_axle as int, car.angular_velocity as int)),
            abs_s(vel_long_s(car)),
        ),
        sgn_s(vel_long_s(car)) * steer_angle_s(car),
    )
}

/// The rear slip angle before folding.
pub open spec fn slip_rear_raw_s(car: CarComponent) -> int {
    atan2_s(
        fx_add_s(vel_lat_s(car), -fx_mul_s(car.config.cg_to_rear_axle as int, car.angular_velocity as int)),
        abs_s(vel_long_s(car)),
    )
}

/// Fold a slip angle into `[-pi/2, pi/2]` by reflection: the deliberate
/// stylization that keeps the tire model stable at extreme slip without a
/// jump.
pub open spec fn fold_slip_s(s: int) -> int {
    let s1 = if s > HALF_PI_FX {
        PI_FX - s
    } else {
        s
    };
    if s1 < -HALF_PI_FX {
        -PI_FX - s1
    } else {
        s1
    }
}

/// The lateral friction force of one axle: cornering stiffness times
/// folded slip, clamped at the grip limit, carried by the axle weight.
pub open spec fn axle_friction_s(stiffness: int, grip: int, slip: int, weight: int) -> int {
    fx_mul_s(clamp_s(-fx_mul_s(stiffness, fold_slip_s(slip)), -grip, grip), weight)
}

/// The front axle's lateral friction force.
pub open spec fn friction_front_s(car: CarComponent) -> int {
    axle_friction_s(
        car.config.corner_stiffness_front as int,
        car.config.tire_grip as int,
        slip_front_raw_s(car),
        axle_weight_front_s(car),
    )
}

/// The rear axle's lateral friction force.
pub open spec fn friction_rear_s(car: CarComponent) -> int {
    axle_friction_s(
        car.config.corner_stiffness_rear as int,
        car.config.tire_grip as int,
        slip_rear_raw_s(car),
        axle_weight_rear_s(car),
    )
}

/// Engine pull less braking, the brake acting against the direction of
/// travel.
pub open spec fn f_traction_s(car: CarComponent) -> int {
    fx_sub_s(
        fx_mul_s(car.throttle as int, car.config.engine_force as int),
        sgn_s(vel_long_s(car)) * fx_mul_s(car.brake as int, car.config.brake_force as int),
    )
}

/// Rolling resistance plus aerodynamic drag against one velocity
/// component.
pub open spec fn drag_force_s(c: CarConfig, v: int) -> int {
    fx_sub_s(
        -fx_mul_s(c.roll_resistance as int, v),
        fx_mul_s(c.air_resistance as int, fx_mul_s(v, abs_s(v))),
    )
}

/// Total longitudinal force: drag, the longitudinal component of the
/// steered front friction, and traction.
pub open spec fn f_tot_long_s(car: CarComponent) -> int {
    fx_add_s(
        fx_sub_s(
            drag_force_s(car.config, vel_long_s(car)),
            fx_mul_s(sin_s(steer_angle_s(car)), friction_front_s(car)),
        ),
        f_traction_s(car),
    )
}

/// Total lateral force: drag plus both axles' friction.
pub open spec fn f_tot_lat_s(car: CarComponent) -> int {
    fx_add_s(
        fx_add_s(
            drag_force_s(car.config, vel_lat_s(car)),
            fx_mul_s(cos_s(steer_angle_s(car)), friction_front_s(car)),
        ),
        friction_rear_s(car),
    )
}

/// The frame is in the low-speed regime.
pub open spec fn low_regime_s(car: CarComponent) -> bool {
    speed_s(car) < LOW_SPEED_T
}

/// Low-speed longitudinal acceleration: drag and traction only, the
/// lateral tire model left out.
pub open spec fn low_acc_scalar_s(car: CarComponent) -> int {
    fx_div_s(
        fx_add_s(drag_force_s(car.config, vel_long_s(car)), f_traction_s(car)),
        car.config.mass as int,
    )
}

/// Low-speed velocity before the creep guard: the new speed put along the
/// pointing direction.
pub open spec fn low_vel_x_s(car: CarComponent, dt: int) -> int {
    fx_mul_s(
        fx_add_s(speed_s(car), fx_mul_s(low_acc_scalar_s(car), dt)),
        cos_s(car.heading as int),
    )
}

/// Low-speed velocity before the creep guard, sideways component.
pub open spec fn low_vel_y_s(car: CarComponent, dt: int) -> int {
    fx_mul_s(
        fx_add_s(speed_s(car), fx_mul_s(low_acc_scalar_s(car), dt)),
        sin_s(car.heading as int),
    )
}

/// The creep guard fires: the new speed is tiny and no throttle is given,
/// so the car is held still.
pub open spec fn creep_stop_s(car: CarComponent, dt: int) -> bool {
    len2_s(low_vel_x_s(car, dt), low_vel_y_s(car, dt)) < CREEP_T && car.throttle == 0
}

/// High-speed world acceleration, x component.
pub open spec fn high_acc_x_s(car: CarComponent) -> int {
    fx_add_s(
        fx_mul_s(fx_div_s(f_tot_long_s(car), car.config.mass as int), cos_s(car.heading as int)),
        fx_mul_s(fx_div_s(f_tot_lat_s(car), car.config.mass as int), -sin_s(car.heading as int)),
    )
}

/// High-speed world acceleration, y component.
pub open spec fn high_acc_y_s(car: CarComponent) -> int {
    fx_add_s(
        fx_mul_s(fx_div_s(f_tot_long_s(car), car.config.mass as int), sin_s(car.heading as int)),
        fx_mul_s(fx_div_s(f_tot_lat_s(car), car.config.mass as int), cos_s(car.heading as int)),
    )
}

/// High-speed angular acceleration: net axle torque over yaw inertia.
pub open spec fn ang_acc_s(car: CarComponent) -> int {
    fx_div_s(
        fx_sub_s(
            fx_mul_s(friction_front_s(car), car.config.cg_to_front_axle as int),
            fx_mul_s(friction_rear_s(car), car.config.cg_to_rear_axle as int),
        ),
        inertia_s(car.config),
    )
}

/// The angular velocity after the frame: kinematic from the steering at
/// low speed, integrated from torque at high speed.
pub open spec fn step_ang_vel_s(car: CarComponent, dt: int) -> int {
    if low_regime_s(car) {
        fx_mul_s(fx_div_s(speed_s(car), wheel_base_s(car.config)), sin_s(steer_angle_s(car)))
    } else {
        fx_add_s(car.angular_velocity as int, fx_mul_s(ang_acc_s(car), dt))
    }
}

/// The heading after the frame: advanced by the new angular velocity.
pub open spec fn step_heading_s(car: CarComponent, dt: int) -> int {
    fx_add_s(car.heading as int, fx_mul_s(step_ang_vel_s(car, dt), dt))
}

/// The velocity after the frame, x component.
pub open spec fn step_vel_x_s(car: CarComponent, dt: int) -> int {
    if low_regime_s(car) {
        if creep_stop_s(car, dt) {
            0
        } else {
            low_vel_x_s(car, dt)
        }
    } else {
        fx_add_s(car.velocity.x as int, fx_mul_s(high_acc_x_s(car), dt))
    }
}

/// The velocity after the frame, y component.
pub open spec fn step_vel_y_s(car: CarComponent, dt: int) -> int {
    if low_regime_s(car) {
        if creep_stop_s(car, dt) {
            0
        } else {
            low_vel_y_s(car, dt)
        }
    } else {
        fx_add_s(car.velocity.y as int, fx_mul_s(high_acc_y_s(car), dt))
    }
}

/// The stored acceleration after the frame, x component.
pub open spec fn step_acc_x_s(car: CarComponent) -> int {
    if low_regime_s(car) {
        fx_mul_s(low_acc_scalar_s(car), cos_s(car.heading as int))
    } else {
        high_acc_x_s(car)
    }
}

/// The stored acceleration after the frame, y component.
pub open spec fn step_acc_y_s(car: CarComponent) -> int {
    if low_regime_s(car) {
        fx_mul_s(low_acc_scalar_s(car), sin_s(car.heading as int))
    } else {
        high_acc_y_s(car)
    }
}

/// The position after the frame, advanced by the new velocity.
pub open spec fn step_pos_x_s(car: CarComponent, dt: int) -> int {
    fx_add_s(car.position.x as int, fx_mul_s(step_vel_x_s(car, dt), dt))
}

/// The position after the frame, advanced by the new velocity.
pub open spec fn step_pos_y_s(car: CarComponent, dt: int) -> int {
    fx_add_s(car.position.y as int, fx_mul_s(step_vel_y_s(car, dt), dt))
}

/// The wheel roll accumulator after the frame: it advances by the new
/// speed over the wheel radius, in either regime.
pub open spec fn step_wheel_roll_s(car: CarComponent, dt: int) -> int {
    fx_add_s(
        car.wheel_roll as int,
        fx_mul_s(
            fx_div_s(
                len2_s(step_vel_x_s(car, dt), step_vel_y_s(car, dt)),
                car.config.wheel_radius as int,
            ),
            dt,
        ),
    )
}

impl CarComponent {
    /// One physics frame: tire, traction and drag forces from the current
    /// state, suspension stepped under the axle weights, then the blended
    /// low-speed/high-speed integration of motion. The contract pins every
    /// field of the state after the frame to its specification stage.
    pub fn update(&mut self, dt: i64)
        requires
            old(self).wf(),
            0 <= dt <= SCALE,
        ensures
            final(self).wf(),
            final(self).config == old(self).config,
            final(self).steer == old(self).steer,
            final(self).throttle == old(self).throttle,
            final(self).brake == old(self).brake,
            final(self).terrain_height == 0,
            final(self).angular_velocity == step_ang_vel_s(*old(self), dt as int),
            final(self).heading == step_heading_s(*old(self), dt as int),
            final(self).velocity.x == step_vel_x_s(*old(self), dt as int),
            final(self).velocity.y == step_vel_y_s(*old(self), dt as int),
            final(self).acceleration.x == step_acc_x_s(*old(self)),
            final(self).acceleration.y == step_acc_y_s(*old(self)),
            final(self).position.x == step_pos_x_s(*old(self), dt as int),
            final(self).position.y == step_pos_y_s(*old(self), dt as int),
            final(self).wheel_roll == step_wheel_roll_s(*old(self), dt as int),
            final(self).front_susp.velocity == susp_vel_next_s(
                old(self).front_susp,
                axle_weight_front_s(*old(self)),
                dt as int,
                old(self).config.mass as int,
            ),
            final(self).front_susp.length == susp_len_next_s(
                old(self).front_susp,
                axle_weight_front_s(*old(self)),
                dt as int,
                old(self).config.mass as int,
            ),
            final(self).rear_susp.velocity == susp_vel_next_s(
                old(self).rear_susp,
                axle_weight_rear_s(*old(self)),
                dt as int,
                old(self).config.mass as int,
            ),
            final(self).rear_susp.length == susp_len_next_s(
                old(self).rear_susp,
                axle_weight_rear_s(*old(self)),
                dt as int,
                old(self).config.mass as int,
            ),
            final(self).front_susp.eq_length == old(self).front_susp.eq_length,
            final(self).front_susp.stiffness == old(self).front_susp.stiffness,
            final(self).front_susp.dampening == old(self).front_susp.dampening,
            final(self).rear_susp.eq_length == old(self).rear_susp.eq_length,
            final(self).rear_susp.stiffness == old(self).rear_susp.stiffness,
            final(self).rear_susp.dampening == old(self).rear_susp.dampening,
    {
        let cfg = self.config;
        let inertia: i64 = fx_mul(cfg.mass, cfg.inertia_ratio);
        let wheel_base: i64 = self.config.wheel_base();
        let axle_weight_ratio_front: i64 = fx_div(cfg.cg_to_rear_axle, wheel_base);
        let axle_weight_ratio_rear: i64 = fx_div(cfg.cg_to_front_axle, wheel_base);
        let speed: i64 = self.speed();
        let steer_angle: i64 = fx_div(
            fx_mul(cfg.max_steer, self.steer),
            fx_add(SCALE, fx_div(speed, STEER_FALLOFF)),
        );
        assert(steer_angle == steer_angle_s(*self));

        // local base
        let dir = self.dir();
        let right = self.right();

        // velocity and acceleration in local coordinates
        let vel_long: i64 = self.velocity.dot(dir);
        let vel_lat: i64 = self.velocity.dot(right);
        let acc_long: i64 = self.acceleration.dot(dir);
        assert(vel_long == vel_long_s(*self));
        assert(vel_lat == vel_lat_s(*self));
        assert(acc_long == acc_long_s(*self));

        // weight on axles
        let wt_term: i64 = fx_div(
            fx_mul(fx_mul(cfg.weight_transfer, acc_long), cfg.cg_height),
            wheel_base,
        );
        let axle_weight_front: i64 = fx_mul(
            cfg.mass,
            fx_sub(fx_mul(axle_weight_ratio_front, cfg.gravity), wt_term),
        );
        let axle_weight_rear: i64 = fx_mul(
            cfg.mass,
            fx_add(fx_mul(axle_weight_ratio_rear, cfg.gravity), wt_term),
        );
        assert(axle_weight_front == axle_weight_front_s(*self));
        assert(axle_weight_rear == axle_weight_rear_s(*self));

        // velocity of wheels from angular velocity
        let vel_from_angular_front: i64 = fx_mul(cfg.cg_to_front_axle, self.angular_velocity);
        let vel_from_angular_rear: i64 = fx_neg(fx_mul(cfg.cg_to_rear_axle, self.angular_velocity));

        // slip angles, folded into a quarter turn each way
        let steer_term: i64 = if vel_long >= 0 {
            steer_angle
        } else {
            -steer_angle
        };
        let slip_angle_front: i64 = fold_slip(
            fx_sub(atan2_fx(fx_add(vel_lat, vel_from_angular_front), fx_abs(vel_long)), steer_term),
        );
        let slip_angle_rear: i64 = fold_slip(
            atan2_fx(fx_add(vel_lat, vel_from_angular_rear), fx_abs(vel_long)),
        );
        proof {
            if vel_long >= 0 {
                assert(sgn_s(vel_long_s(*self)) == 1);
                assert(1 * steer_angle_s(*self) == steer_angle_s(*self)) by (nonlinear_arith);
            } else {
                assert(sgn_s(vel_long_s(*self)) == -1);
                assert((-1) * steer_angle_s(*self) == -steer_angle_s(*self)) by (nonlinear_arith);
            }
        }
        assert(slip_angle_front == fold_slip_s(slip_front_raw_s(*self)));
        assert(slip_angle_rear == fold_slip_s(slip_rear_raw_s(*self)));

        let tire_grip: i64 = cfg.tire_grip;
        let f_friction_front: i64 = fx_mul(
            fx_clamp(
                fx_neg(fx_mul(cfg.corner_stiffness_front, slip_angle_front)),
                fx_neg(tire_grip),
                tire_grip,
            ),
            axle_weight_front,
        );
        let f_friction_rear: i64 = fx_mul(
            fx_clamp(
                fx_neg(fx_mul(cfg.corner_stiffness_rear, slip_angle_rear)),
                fx_neg(tire_grip),
                tire_grip,
            ),
            axle_weight_rear,
        );
        assert(f_friction_front == friction_front_s(*self));
        assert(f_friction_rear == friction_rear_s(*self));

        // brake and throttle forces
        let f_brake: i64 = fx_mul(self.brake, cfg.brake_force);
        let f_throttle: i64 = fx_mul(self.throttle, cfg.engine_force);
        let brake_term: i64 = if vel_long >= 0 {
            f_brake
        } else {
            -f_brake
        };
        let f_traction: i64 = fx_sub(f_throttle, brake_term);
        proof {
            let fb = fx_mul_s(old(self).brake as int, cfg.brake_force as int);
            if vel_long >= 0 {
                assert(1 * fb == fb) by (nonlinear_arith);
            } else {
                assert((-1) * fb == -fb) by (nonlinear_arith);
            }
        }
        assert(f_traction == f_traction_s(*self));

        let f_drag_long: i64 = fx_sub(
            fx_neg(fx_mul(cfg.roll_resistance, vel_long)),
            fx_mul(cfg.air_resistance, fx_mul(vel_long, fx_abs(vel_long))),
        );
        let f_drag_lat: i64 = fx_sub(
            fx_neg(fx_mul(cfg.roll_resistance, vel_lat)),
            fx_mul(cfg.air_resistance, fx_mul(vel_lat, fx_abs(vel_lat))),
        );
        assert(f_drag_long == drag_force_s(cfg, vel_long_s(*self)));
        assert(f_drag_lat == drag_force_s(cfg, vel_lat_s(*self)));

        // total local force
        let sin_sa: i64 = sin_fx(steer_angle);
        let cos_sa: i64 = cos_fx(steer_angle);
        let f_tot_long: i64 = fx_add(fx_sub(f_drag_long, fx_mul(sin_sa, f_friction_front)), f_traction);
        let f_tot_lat: i64 = fx_add(fx_add(f_drag_lat, fx_mul(cos_sa, f_friction_front)), f_friction_rear);
        assert(f_tot_long == f_tot_long_s(*self));
        assert(f_tot_lat == f_tot_lat_s(*self));

        // local acceleration, and its world image
        let a_long: i64 = fx_div(f_tot_long, cfg.mass);
        let a_lat: i64 = fx_div(f_tot_lat, cfg.mass);
        let a_world = Vec2Fx {
            x: fx_add(fx_mul(a_long, dir.x), fx_mul(a_lat, right.x)),
            y: fx_add(fx_mul(a_long, dir.y), fx_mul(a_lat, right.y)),
        };
        assert(a_world.x == high_acc_x_s(*self));
        assert(a_world.y == high_acc_y_s(*self));

        self.front_susp.apply_force(axle_weight_front, dt, cfg.mass);
        self.rear_susp.apply_force(axle_weight_rear, dt, cfg.mass);

        if speed < LOW_SPEED_T {
            let new_ang_vel: i64 = fx_mul(fx_div(speed, wheel_base), sin_sa);
            self.angular_velocity = new_ang_vel;
            assert(new_ang_vel == step_ang_vel_s(*old(self), dt as int));

            let a_scalar: i64 = fx_div(fx_add(f_drag_long, f_traction), cfg.mass);
            assert(a_scalar == low_acc_scalar_s(*old(self)));

            self.acceleration = Vec2Fx { x: fx_mul(a_scalar, dir.x), y: fx_mul(a_scalar, dir.y) };

            let new_speed: i64 = fx_add(speed, fx_mul(a_scalar, dt));
            let vel_mid = Vec2Fx { x: fx_mul(new_speed, dir.x), y: fx_mul(new_speed, dir.y) };
            assert(vel_mid.x == low_vel_x_s(*old(self), dt as int));
            assert(vel_mid.y == low_vel_y_s(*old(self), dt as int));

            if vel_mid.length() < CREEP_T && self.throttle == 0 {
                self.velocity = Vec2Fx { x: 0, y: 0 };
            } else {
                self.velocity = vel_mid;
            }
            assert(self.velocity.x == step_vel_x_s(*old(self), dt as int));

            self.heading = fx_add(self.heading, fx_mul(new_ang_vel, dt));

            self.position = Vec2Fx {
                x: fx_add(self.position.x, fx_mul(self.velocity.x, dt)),
                y: fx_add(self.position.y, fx_mul(self.velocity.y, dt)),
            };
        } else {
            self.acceleration = a_world;
            self.velocity = Vec2Fx {
                x: fx_add(self.velocity.x, fx_mul(a_world.x, dt)),
                y: fx_add(self.velocity.y, fx_mul(a_world.y, dt)),
            };
            assert(self.velocity.x == step_vel_x_s(*old(self), dt as int));

            // rotational forces
            let body_torque: i64 = fx_sub(
                fx_mul(f_friction_front, cfg.cg_to_front_axle),
                fx_mul(f_friction_rear, cfg.cg_to_rear_axle),
            );
            let angular_acceleration: i64 = fx_div(body_torque, inertia);
            assert(angular_acceleration == ang_acc_s(*old(self)));

            self.angular_velocity = fx_add(self.angular_velocity, fx_mul(angular_acceleration, dt));
            assert(self.angular_velocity == step_ang_vel_s(*old(self), dt as int));
            self.heading = fx_add(self.heading, fx_mul(self.angular_velocity, dt));

            self.position = Vec2Fx {
                x: fx_add(self.position.x, fx_mul(self.velocity.x, dt)),
                y: fx_add(self.position.y, fx_mul(self.velocity.y, dt)),
            };
        }

        let final_speed: i64 = self.velocity.length();
        self.wheel_roll = fx_add(self.wheel_roll, fx_mul(fx_div(final_speed, cfg.wheel_radius), dt));

        self.terrain_height = 0;
    }
}

/// The length of a vector on the positive x axis is its x component.
proof fn lemma_len_on_axis(v: int)
    requires
        0 <= v <= FX_LIM,
    ensures
        len2_s(v, 0) == v,
{
    assert(v * v + 0 * 0 == v * v && v * v >= 0) by (nonlinear_arith);
    assert(v * v <= v * v < (v + 1) * (v + 1)) by (nonlinear_arith)
        requires
            v >= 0,
    ;
    crate::trig::lemma_isqrt_unique((v * v) as nat, v as nat);
}

/// Folding is idempotent: on the slip angles the model can produce
/// (a quarter turn from the arctangent plus a bounded steering term), one
/// reflection lands inside `[-pi/2, pi/2]` and a second changes nothing.
pub proof fn lemma_fold_idempotent(s: int)
    requires
        -3 * (HALF_PI_FX as int) <= s <= 3 * (HALF_PI_FX as int),
    ensures
        -HALF_PI_FX <= fold_slip_s(s) <= HALF_PI_FX,
        fold_slip_s(fold_slip_s(s)) == fold_slip_s(s),
{
}

/// Folding reflects around the quarter-turn boundary: a slip angle `e`
/// beyond it folds to exactly `e` short of it.
pub proof fn lemma_fold_reflects(e: int)
    requires
        0 <= e <= PI_FX,
    ensures
        fold_slip_s(HALF_PI_FX + e) == HALF_PI_FX - e,
        fold_slip_s(HALF_PI_FX - e) == HALF_PI_FX - e,
{
}

/// The tire force is continuous at the folding boundary: the friction the
/// model assigns at slip `pi/2 + e` equals the friction at `pi/2 - e`
/// exactly, so no jump occurs when a slip angle crosses the boundary.
pub proof fn lemma_friction_continuous(stiffness: int, grip: int, weight: int, e: int)
    requires
        0 <= e <= PI_FX,
    ensures
        axle_friction_s(stiffness, grip, (HALF_PI_FX + e) as int, weight) == axle_friction_s(
            stiffness,
            grip,
            (HALF_PI_FX - e) as int,
            weight,
        ),
{
    lemma_fold_reflects(e);
}

/// For any positive step and zero control input, a stationary car stays
/// exactly stationary: the velocity remains zero and position, heading
/// and wheel roll are unchanged. The creep guard suppresses drift at rest.
pub proof fn lemma_stationary_stays(car: CarComponent, dt: int)
    requires
        car.wf(),
        car.velocity.x == 0,
        car.velocity.y == 0,
        car.angular_velocity == 0,
        car.steer == 0,
        car.throttle == 0,
        car.brake == 0,
        0 < dt <= SCALE,
    ensures
        step_vel_x_s(car, dt) == 0,
        step_vel_y_s(car, dt) == 0,
        step_pos_x_s(car, dt) == car.position.x,
        step_pos_y_s(car, dt) == car.position.y,
        step_heading_s(car, dt) == car.heading,
        step_ang_vel_s(car, dt) == 0,
        step_wheel_roll_s(car, dt) == car.wheel_roll,
{
    let c = car.config;
    let dx = cos_s(car.heading as int);
    let dy = sin_s(car.heading as int);
    assert(0 * 0 == 0) by (nonlinear_arith);
    assert(speed_s(car) == 0) by {
        lemma_len_on_axis(0);
    }
    assert(low_regime_s(car));
    crate::fx::lemma_fx_mul_zero(dx);
    crate::fx::lemma_fx_mul_zero(dy);
    crate::fx::lemma_fx_mul_zero(-dy);
    assert(vel_long_s(car) == 0);
    crate::fx::lemma_fx_mul_zero(c.roll_resistance as int);
    crate::fx::lemma_fx_mul_zero(c.air_resistance as int);
    assert(fx_mul_s(0, abs_s(0)) == 0) by {
        crate::fx::lemma_fx_mul_zero(0);
    }
    assert(drag_force_s(c, 0) == 0);
    crate::fx::lemma_fx_mul_zero(c.engine_force as int);
    crate::fx::lemma_fx_mul_zero(c.brake_force as int);
    assert(sgn_s(0) * 0 == 0) by (nonlinear_arith);
    assert(f_traction_s(car) == 0);
    assert(fx_add_s(drag_force_s(c, vel_long_s(car)), f_traction_s(car)) == 0);
    crate::fx::lemma_fx_div_zero(c.mass as int);
    assert(low_acc_scalar_s(car) == 0);
    crate::fx::lemma_fx_mul_zero(dt);
    assert(low_vel_x_s(car, dt) == 0 && low_vel_y_s(car, dt) == 0) by {
        crate::fx::lemma_fx_mul_zero(dx);
        crate::fx::lemma_fx_mul_zero(dy);
    }
    assert(len2_s(0, 0) == 0) by {
        lemma_len_on_axis(0);
    }
    assert(creep_stop_s(car, dt));
    assert(step_vel_x_s(car, dt) == 0 && step_vel_y_s(car, dt) == 0);
    crate::fx::lemma_fx_div_zero(wheel_base_s(c));
    assert(step_ang_vel_s(car, dt) == 0) by {
        crate::fx::lemma_fx_mul_zero(sin_s(steer_angle_s(car)));
    }
    assert(step_heading_s(car, dt) == car.heading) by {
        crate::fx::lemma_fx_mul_zero(dt);
    }
    assert(step_pos_x_s(car, dt) == car.position.x && step_pos_y_s(car, dt) == car.position.y)
        by {
        crate::fx::lemma_fx_mul_zero(dt);
    }
    assert(step_wheel_roll_s(car, dt) == car.wheel_roll) by {
        crate::fx::lemma_fx_div_zero(c.wheel_radius as int);
        crate::fx::lemma_fx_mul_zero(dt);
    }
}

/// The speed after one straight-line full-throttle frame: current speed
/// plus traction less drag over mass, for the frame's duration.
pub open spec fn full_throttle_next_s(c: CarConfig, v: int, dt: int) -> int {
    fx_add_s(
        v,
        fx_mul_s(
            fx_div_s(fx_add_s(drag_force_s(c, v), c.engine_force as int), c.mass as int),
            dt,
        ),
    )
}

/// A car pointed down the x axis at full throttle with no steering stays
/// on the axis, keeps heading zero, and its speed steps exactly by the
/// longitudinal force law — in either integration regime.
pub proof fn lemma_straight_step(car: CarComponent, dt: int)
    requires
        car.wf(),
        car.heading == 0,
        car.velocity.y == 0,
        car.velocity.x >= 0,
        car.angular_velocity == 0,
        car.steer == 0,
        car.brake == 0,
        car.throttle == SCALE,
        0 <= dt <= SCALE,
    ensures
        step_vel_y_s(car, dt) == 0,
        step_vel_x_s(car, dt) == full_throttle_next_s(car.config, car.velocity.x as int, dt),
        step_ang_vel_s(car, dt) == 0,
        step_heading_s(car, dt) == 0,
{
    let c = car.config;
    let v = car.velocity.x as int;
    crate::trig::lemma_sin_cos_zero();
    let dx = cos_s(0);
    let dy = sin_s(0);
    assert(dx == SCALE && dy == 0);
    lemma_len_on_axis(v);
    assert(speed_s(car) == v);
    // no steering: the steering angle is exactly zero
    crate::fx::lemma_fx_mul_zero(c.max_steer as int);
    crate::fx::lemma_fx_div_zero(
        fx_add_s(SCALE as int, fx_div_s(speed_s(car), STEER_FALLOFF as int)),
    );
    assert(steer_angle_s(car) == 0);
    // local velocities: all longitudinal
    crate::fx::lemma_fx_mul_one(v);
    crate::fx::lemma_fx_mul_zero(v);
    crate::fx::lemma_fx_mul_zero(SCALE as int);
    crate::fx::lemma_fx_mul_zero(0);
    assert(vel_long_s(car) == v);
    assert(vel_lat_s(car) == 0);
    // slip angles vanish
    crate::fx::lemma_fx_mul_zero(c.cg_to_front_axle as int);
    crate::fx::lemma_fx_mul_zero(c.cg_to_rear_axle as int);
    assert(atan2_s(0, abs_s(v)) == 0);
    assert(sgn_s(v) * 0 == 0) by (nonlinear_arith);
    assert(slip_front_raw_s(car) == 0);
    assert(slip_rear_raw_s(car) == 0);
    assert(fold_slip_s(0) == 0);
    // with zero slip both friction forces vanish
    crate::fx::lemma_fx_mul_zero(c.corner_stiffness_front as int);
    crate::fx::lemma_fx_mul_zero(c.corner_stiffness_rear as int);
    assert(clamp_s(0, -(c.tire_grip as int), c.tire_grip as int) == 0);
    crate::fx::lemma_fx_mul_zero(axle_weight_front_s(car));
    crate::fx::lemma_fx_mul_zero(axle_weight_rear_s(car));
    assert(friction_front_s(car) == 0);
    assert(friction_rear_s(car) == 0);
    // full throttle, no brake
    crate::fx::lemma_fx_mul_one_left(c.engine_force as int);
    crate::fx::lemma_fx_mul_zero(c.brake_force as int);
    assert(sgn_s(v) * 0 == 0) by (nonlinear_arith);
    assert(f_traction_s(car) == c.engine_force);
    // total longitudinal force is drag plus traction; lateral vanishes
    crate::fx::lemma_fx_mul_zero(friction_front_s(car));
    assert(fx_mul_s(sin_s(steer_angle_s(car)), friction_front_s(car)) == 0);
    assert(f_tot_long_s(car) == fx_add_s(drag_force_s(c, v), c.engine_force as int));
    assert(drag_force_s(c, 0) == 0) by {
        crate::fx::lemma_fx_mul_zero(c.roll_resistance as int);
        crate::fx::lemma_fx_mul_zero(c.air_resistance as int);
        crate::fx::lemma_fx_mul_zero(0);
    }
    assert(fx_mul_s(cos_s(steer_angle_s(car)), friction_front_s(car)) == 0);
    assert(f_tot_lat_s(car) == 0);
    crate::fx::lemma_fx_div_zero(c.mass as int);
    let a_long = fx_div_s(f_tot_long_s(car), c.mass as int);
    assert(fx_ok(a_long));
    // the world acceleration lies on the axis
    crate::fx::lemma_fx_mul_one(a_long);
    crate::fx::lemma_fx_mul_zero(a_long);
    crate::fx::lemma_fx_mul_zero(0);
    assert(high_acc_x_s(car) == a_long);
    assert(high_acc_y_s(car) == 0);
    if low_regime_s(car) {
        assert(low_acc_scalar_s(car) == a_long);
        let ns = fx_add_s(v, fx_mul_s(a_long, dt));
        crate::fx::lemma_fx_mul_one(ns);
        crate::fx::lemma_fx_mul_zero(ns);
        assert(low_vel_x_s(car, dt) == ns);
        assert(low_vel_y_s(car, dt) == 0);
        assert(!creep_stop_s(car, dt));
        assert(step_vel_x_s(car, dt) == full_throttle_next_s(c, v, dt));
        assert(step_vel_y_s(car, dt) == 0);
        crate::fx::lemma_fx_div_zero(wheel_base_s(c));
        assert(step_ang_vel_s(car, dt) == 0) by {
            crate::fx::lemma_fx_mul_zero(fx_div_s(speed_s(car), wheel_base_s(c)));
        }
    } else {
        assert(step_vel_x_s(car, dt) == full_throttle_next_s(c, v, dt));
        assert(step_vel_y_s(car, dt) == 0) by {
            crate::fx::lemma_fx_mul_zero(dt);
        }
        assert(ang_acc_s(car) == 0) by {
            crate::fx::lemma_fx_mul_zero(c.cg_to_front_axle as int);
            crate::fx::lemma_fx_mul_zero(c.cg_to_rear_axle as int);
            crate::fx::lemma_fx_div_zero(inertia_s(c));
        }
        assert(step_ang_vel_s(car, dt) == 0) by {
            crate::fx::lemma_fx_mul_zero(dt);
        }
    }
    assert(step_heading_s(car, dt) == 0) by {
        crate::fx::lemma_fx_mul_zero(dt);
    }
}

/// While drag has not yet balanced traction, a straight-line full-throttle
/// frame never lowers the speed: the monotone half of the terminal
/// velocity behavior.
pub proof fn lemma_full_throttle_monotone(c: CarConfig, v: int, dt: int)
    requires
        c.wf(),
        0 <= v <= FX_LIM,
        0 <= dt <= SCALE,
        fx_add_s(drag_force_s(c, v), c.engine_force as int) >= 0,
    ensures
        full_throttle_next_s(c, v, dt) >= v,
{
    let n = fx_add_s(drag_force_s(c, v), c.engine_force as int);
    let q = fx_div_s(n, c.mass as int);
    assert(q >= 0) by {
        assert(n * (SCALE as int) >= 0) by (nonlinear_arith)
            requires
                n >= 0,
        ;
        vstd::arithmetic::div_mod::lemma_div_pos_is_pos(n * (SCALE as int), c.mass as int);
    }
    let m = fx_mul_s(q, dt);
    assert(m >= 0) by {
        crate::fx::lemma_fx_mul_nonneg(q, dt);
    }
}

/// The two truncated terms of the drag force at a nonnegative speed, and
/// that they do not saturate for moderate tuning values.
proof fn lemma_drag_terms(c: CarConfig, x: int) -> (t: (int, int))
    requires
        c.wf(),
        0 <= c.roll_resistance <= 1024 * SCALE,
        0 <= c.air_resistance <= 1024 * SCALE,
        0 <= x <= 128 * SCALE,
    ensures
        t.0 == (c.roll_resistance * x) / (SCALE as int),
        fx_mul_s(c.roll_resistance as int, x) == t.0,
        0 <= t.0 <= 0x8000_0000_0000,
        t.1 == (c.air_resistance * ((x * x) / (SCALE as int))) / (SCALE as int),
        fx_mul_s(c.air_resistance as int, fx_mul_s(x, x)) == t.1,
        0 <= t.1 <= 0x8000_0000_0000,
        drag_force_s(c, x) == -(t.0 + t.1),
        abs_s(x) == x,
{
    let s = SCALE as int;
    let roll = c.roll_resistance as int;
    let air = c.air_resistance as int;
    assert(roll * x >= 0 && roll * x <= (1024 * s) * (128 * s)) by (nonlinear_arith)
        requires
            0 <= roll <= 1024 * s,
            0 <= x <= 128 * s,
            s == SCALE as int,
    ;
    let t0 = (roll * x) / s;
    lemma_div_pos_is_pos(roll * x, s);
    assert(t0 <= 1024 * 128 * s) by {
        lemma_div_is_ordered(roll * x, (1024 * s) * (128 * s), s);
        assert((1024 * s) * (128 * s) == (1024 * 128 * s) * s) by (nonlinear_arith);
        lemma_div_by_multiple(1024 * 128 * s, s);
    }
    assert(fx_mul_s(roll, x) == t0);
    assert(x * x >= 0 && x * x <= (128 * s) * (128 * s)) by (nonlinear_arith)
        requires
            0 <= x <= 128 * s,
    ;
    let q = (x * x) / s;
    lemma_div_pos_is_pos(x * x, s);
    assert(q <= 16384 * s) by {
        lemma_div_is_ordered(x * x, (128 * s) * (128 * s), s);
        assert((128 * s) * (128 * s) == (16384 * s) * s) by (nonlinear_arith);
        lemma_div_by_multiple(16384 * s, s);
    }
    assert(fx_mul_s(x, x) == q);
    assert(air * q >= 0 && air * q <= (1024 * s) * (16384 * s)) by (nonlinear_arith)
        requires
            0 <= air <= 1024 * s,
            0 <= q <= 16384 * s,
    ;
    let t1 = (air * q) / s;
    lemma_div_pos_is_pos(air * q, s);
    assert(t1 <= 1024 * 16384 * s) by {
        lemma_div_is_ordered(air * q, (1024 * s) * (16384 * s), s);
        assert((1024 * s) * (16384 * s) == (1024 * 16384 * s) * s) by (nonlinear_arith);
        lemma_div_by_multiple(1024 * 16384 * s, s);
    }
    assert(fx_mul_s(air, q) == t1);
    assert(drag_force_s(c, x) == sat(-t0 - t1));
    assert(drag_force_s(c, x) == -(t0 + t1));
    (t0, t1)
}

/// Terminal velocity bound: where the drag at speed `vt` at least
/// balances the engine, and the frame is short enough for the tuning set,
/// a straight-line full-throttle step from any speed at or below `vt`
/// stays at or below `vt`. Together with the monotone lemma: the speed
/// climbs toward the terminal speed and never passes it.
pub proof fn lemma_full_throttle_bounded(c: CarConfig, v: int, vt: int, dt: int)
    requires
        c.wf(),
        0 <= c.roll_resistance <= 1024 * SCALE,
        0 <= c.air_resistance <= 1024 * SCALE,
        0 <= v <= vt,
        vt <= 128 * SCALE,
        0 <= dt <= SCALE,
        // the drag at the terminal speed balances the engine pull
        fx_add_s(drag_force_s(c, vt), c.engine_force as int) <= 0,
        // the frame duration is small against the tuning set
        dt * (c.roll_resistance * SCALE + 2 * c.air_resistance * vt + 2 * SCALE * SCALE
            + c.air_resistance * SCALE) <= c.mass * SCALE * SCALE,
    ensures
        full_throttle_next_s(c, v, dt) <= vt,
{
    let s = SCALE as int;
    let m = c.mass as int;
    let e = c.engine_force as int;
    let roll = c.roll_resistance as int;
    let air = c.air_resistance as int;
    let (tv0, tv1) = lemma_drag_terms(c, v);
    let (tt0, tt1) = lemma_drag_terms(c, vt);
    let dv = tv0 + tv1;
    let dvt = tt0 + tt1;
    // the balance hypothesis, without the saturation
    assert(e <= dvt) by {
        assert(fx_add_s(-(dvt), e) == sat(e - dvt));
    }
    let n = fx_add_s(drag_force_s(c, v), e);
    assert(n == sat(e - dv));
    if e <= dv {
        // decelerating or steady: the step cannot raise the speed
        assert(n <= 0);
        let a = fx_div_s(n, m);
        assert(a <= 0) by {
            if n < 0 {
                assert(n * s < 0) by (nonlinear_arith)
                    requires
                        n < 0,
                        s > 0,
                ;
                lemma_div_pos_is_pos(-(n * s), m);
            }
        }
        let d = fx_mul_s(a, dt);
        assert(d <= 0) by {
            if a < 0 {
                assert(a * dt <= 0) by (nonlinear_arith)
                    requires
                        a < 0,
                        dt >= 0,
                ;
                lemma_div_pos_is_pos(-(a * dt), s);
            } else {
                assert(a == 0);
                assert(0 * dt == 0) by (nonlinear_arith);
            }
        }
        assert(full_throttle_next_s(c, v, dt) == sat(v + d));
    } else {
        // accelerating: the gap to the terminal drag bounds the pull
        assert(n == e - dv);
        assert(n <= dvt - dv);
        // drag is monotone, so the speed is strictly below terminal
        assert(dv <= dvt) by {
            assert(roll * v <= roll * vt) by (nonlinear_arith)
                requires
                    roll >= 0,
                    v <= vt,
            ;
            lemma_div_is_ordered(roll * v, roll * vt, s);
            assert(v * v <= vt * vt) by (nonlinear_arith)
                requires
                    0 <= v <= vt,
            ;
            lemma_div_is_ordered(v * v, vt * vt, s);
            assert(air * ((v * v) / s) <= air * ((vt * vt) / s)) by (nonlinear_arith)
                requires
                    air >= 0,
                    (v * v) / s <= (vt * vt) / s,
            ;
            lemma_div_is_ordered(air * ((v * v) / s), air * ((vt * vt) / s), s);
        }
        assert(v < vt);
        // truncation bounds on the drag difference
        assert((tt0 - tv0) * s <= roll * (vt - v) + s) by {
            lemma_fundamental_div_mod(roll * vt, s);
            lemma_mod_bound(roll * vt, s);
            lemma_fundamental_div_mod(roll * v, s);
            lemma_mod_bound(roll * v, s);
            assert(s * ((roll * vt) / s) == ((roll * vt) / s) * s) by (nonlinear_arith);
            assert(s * ((roll * v) / s) == ((roll * v) / s) * s) by (nonlinear_arith);
            assert((tt0 - tv0) * s == tt0 * s - tv0 * s) by (nonlinear_arith);
            assert(roll * vt - roll * v == roll * (vt - v)) by (nonlinear_arith);
        }
        let qv = (v * v) / s;
        let qt = (vt * vt) / s;
        assert((qt - qv) * s <= vt * vt - v * v + s) by {
            lemma_fundamental_div_mod(vt * vt, s);
            lemma_mod_bound(vt * vt, s);
            lemma_fundamental_div_mod(v * v, s);
            lemma_mod_bound(v * v, s);
            assert(s * ((vt * vt) / s) == ((vt * vt) / s) * s) by (nonlinear_arith);
            assert(s * ((v * v) / s) == ((v * v) / s) * s) by (nonlinear_arith);
            assert((qt - qv) * s == qt * s - qv * s) by (nonlinear_arith);
        }
        assert((tt1 - tv1) * s <= air * (qt - qv) + s) by {
            lemma_fundamental_div_mod(air * qt, s);
            lemma_mod_bound(air * qt, s);
            lemma_fundamental_div_mod(air * qv, s);
            lemma_mod_bound(air * qv, s);
            assert(s * ((air * qt) / s) == ((air * qt) / s) * s) by (nonlinear_arith);
            assert(s * ((air * qv) / s) == ((air * qv) / s) * s) by (nonlinear_arith);
            assert((tt1 - tv1) * s == tt1 * s - tv1 * s) by (nonlinear_arith);
            assert(air * qt - air * qv == air * (qt - qv)) by (nonlinear_arith);
        }
        // put the pieces together: n s^2 is bounded by the distance to go
        assert(vt * vt - v * v == (vt - v) * (vt + v)) by (nonlinear_arith);
        assert(n * s <= roll * (vt - v) + air * (qt - qv) + 2 * s) by (nonlinear_arith)
            requires
                n <= (tt0 - tv0) + (tt1 - tv1),
                (tt0 - tv0) * s <= roll * (vt - v) + s,
                (tt1 - tv1) * s <= air * (qt - qv) + s,
                s > 0,
        ;
        assert(n * s * s <= roll * (vt - v) * s + air * (qt - qv) * s + 2 * s * s)
            by (nonlinear_arith)
            requires
                n * s <= roll * (vt - v) + air * (qt - qv) + 2 * s,
                s > 0,
        ;
        assert(air * (qt - qv) * s <= air * ((vt - v) * (vt + v)) + air * s) by (nonlinear_arith)
            requires
                (qt - qv) * s <= vt * vt - v * v + s,
                vt * vt - v * v == (vt - v) * (vt + v),
                air >= 0,
        ;
        assert(n * s * s <= (vt - v) * (roll * s) + air * ((vt - v) * (vt + v)) + air * s + 2 * s
            * s) by (nonlinear_arith)
            requires
                n * s * s <= roll * (vt - v) * s + air * (qt - qv) * s + 2 * s * s,
                air * (qt - qv) * s <= air * ((vt - v) * (vt + v)) + air * s,
        ;
        assert(n * s * s <= (vt - v) * (roll * s + air * (vt + v) + 2 * s * s + air * s))
            by (nonlinear_arith)
            requires
                n * s * s <= (vt - v) * (roll * s) + air * ((vt - v) * (vt + v)) + air * s + 2 * s
                    * s,
                1 <= vt - v,
                s > 0,
                air >= 0,
        ;
        // the frame condition turns that into: the step stays within the gap
        assert((vt - v) * (roll * s + air * (vt + v) + 2 * s * s + air * s) * dt <= (vt - v) * (m
            * s * s)) by (nonlinear_arith)
            requires
                dt * (roll * s + 2 * air * vt + 2 * s * s + air * s) <= m * s * s,
                0 <= v <= vt,
                air >= 0,
                dt >= 0,
                1 <= vt - v,
                roll >= 0,
                s > 0,
                m > 0,
        ;
        let a = fx_div_s(n, m);
        assert(n * s >= 0) by (nonlinear_arith)
            requires
                n > 0,
                s > 0,
        ;
        assert((n * s) / m <= n) by {
            vstd::arithmetic::div_mod::lemma_div_is_ordered_by_denominator(n * s, s, m);
            lemma_div_by_multiple(n, s);
            assert(n * s == s * n) by (nonlinear_arith);
        }
        assert(a == (n * s) / m);
        lemma_div_pos_is_pos(n * s, m);
        assert(a * m <= n * s) by {
            lemma_fundamental_div_mod(n * s, m);
            lemma_mod_bound(n * s, m);
            assert(m * ((n * s) / m) == ((n * s) / m) * m) by (nonlinear_arith);
        }
        let d = fx_mul_s(a, dt);
        assert(a * dt >= 0) by (nonlinear_arith)
            requires
                a >= 0,
                dt >= 0,
        ;
        assert((a * dt) / s <= a) by {
            assert(a * dt <= a * s) by (nonlinear_arith)
                requires
                    a >= 0,
                    dt <= s,
            ;
            lemma_div_is_ordered(a * dt, a * s, s);
            lemma_div_by_multiple(a, s);
            assert(a * s == s * a) by (nonlinear_arith);
        }
        assert(d == (a * dt) / s);
        lemma_div_pos_is_pos(a * dt, s);
        assert(d * s <= a * dt) by {
            lemma_fundamental_div_mod(a * dt, s);
            lemma_mod_bound(a * dt, s);
            assert(s * ((a * dt) / s) == ((a * dt) / s) * s) by (nonlinear_arith);
        }
        // chain the inequalities down to d <= vt - v
        assert(d <= vt - v) by (nonlinear_arith)
            requires
                d * s <= a * dt,
                a * m <= n * s,
                n * s * s <= (vt - v) * (roll * s + air * (vt + v) + 2 * s * s + air * s),
                (vt - v) * (roll * s + air * (vt + v) + 2 * s * s + air * s) * dt <= (vt - v) * (m
                    * s * s),
                s > 0,
                m > 0,
                dt >= 0,
                d >= 0,
                a >= 0,
                n > 0,
        ;
        assert(full_throttle_next_s(c, v, dt) == sat(v + d));
    }
}

/// Fold a slip angle into `[-pi/2, pi/2]` by reflection, exactly as
/// `fold_slip_s` says.
pub fn fold_slip(s: i64) -> (r: i64)
    requires
        fx_ok(s as int),
    ensures
        r == fold_slip_s(s as int),
        fx_ok(r as int),
{
    let s1: i64 = if s > HALF_PI_FX {
        PI_FX - s
    } else {
        s
    };
    if s1 < -HALF_PI_FX {
        -PI_FX - s1
    } else {
        s1
    }
}

} // verus!
