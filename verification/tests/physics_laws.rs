use skyracer::car::CarComponent;
use skyracer::fx::{fx_add, fx_clamp, fx_mul, fx_neg, SCALE};
use skyracer::physics::fold_slip;
use skyracer::trig::{HALF_PI_FX, PI_FX};
use skyracer::vec::Vec2Fx;

const DT: i64 = 1092;

fn fresh_car() -> CarComponent {
    CarComponent::new_stiff(0, Vec2Fx { x: 0, y: 0 }, 0)
}

#[test]
fn stationary_car_stays_stationary() {
    // zero control input: velocity stays zero, position and heading too
    let mut car = fresh_car();
    for _ in 0..50 {
        car.update(DT);
        assert_eq!(car.velocity, Vec2Fx { x: 0, y: 0 });
        assert_eq!(car.position, Vec2Fx { x: 0, y: 0 });
        assert_eq!(car.heading, 0);
        assert_eq!(car.angular_velocity, 0);
        assert_eq!(car.wheel_roll, 0);
    }
}

#[test]
fn full_throttle_speed_is_monotone_and_bounded() {
    // the terminal speed of the nominal tuning set, computed from
    // drag(vt) >= engine_force in the fixed-point drag law
    let terminal: i64 = 3578521;
    let mut car = fresh_car();
    car.throttle = SCALE;
    let mut prev: i64 = 0;
    for _ in 0..4000 {
        car.update(DT);
        let sp = car.speed();
        assert!(sp >= prev, "speed decreased below terminal");
        assert!(sp <= terminal, "speed passed the terminal speed");
        // the car stays on its straight line
        assert_eq!(car.velocity.y, 0);
        assert_eq!(car.heading, 0);
        prev = sp;
    }
    // after a bounded duration the speed has nearly reached terminal
    assert!(prev > terminal - 2000);
}

#[test]
fn slip_folding_is_idempotent() {
    for s in [
        0i64, 1, -1, 50000, -50000, HALF_PI_FX, -HALF_PI_FX, HALF_PI_FX + 1, -HALF_PI_FX - 1,
        150000, -150000, PI_FX, -PI_FX, 3 * HALF_PI_FX, -3 * HALF_PI_FX,
    ] {
        let once = fold_slip(s);
        assert!(-HALF_PI_FX <= once && once <= HALF_PI_FX);
        assert_eq!(fold_slip(once), once);
    }
}

#[test]
fn friction_is_continuous_at_the_folding_boundary() {
    // the friction computed just past the quarter-turn boundary equals
    // the friction just short of it, exactly
    let stiffness: i64 = 917504;
    let grip: i64 = 327680;
    let weight: i64 = 368640000;
    for e in [1i64, 5, 100, 5000, 50000] {
        let lo = fold_slip(HALF_PI_FX - e);
        let hi = fold_slip(HALF_PI_FX + e);
        assert_eq!(lo, hi);
        let force_lo = fx_mul(
            fx_clamp(fx_neg(fx_mul(stiffness, lo)), fx_neg(grip), grip),
            weight,
        );
        let force_hi = fx_mul(
            fx_clamp(fx_neg(fx_mul(stiffness, hi)), fx_neg(grip), grip),
            weight,
        );
        assert_eq!(force_lo, force_hi);
    }
}

#[test]
fn golden_trace_hundred_steps() {
    // full right steer and full throttle from the origin, one hundred
    // sixtieth-of-a-second frames: the heading and position must match
    // this recorded reference trajectory exactly, checkpoint by
    // checkpoint — the run is deterministic integer arithmetic
    let reference: [(usize, i64, i64, i64); 4] = [
        (25, 5400, 31456, 1203),
        (50, 21615, 121265, 19653),
        (75, 47760, 250876, 94286),
        (100, 82438, 362536, 261947),
    ];
    let mut car = fresh_car();
    car.steer = SCALE;
    car.throttle = SCALE;
    let mut step: usize = 0;
    for (at, heading, px, py) in reference {
        while step < at {
            car.update(DT);
            step += 1;
        }
        assert_eq!(car.heading, heading, "heading at step {}", at);
        assert_eq!(car.position.x, px, "x at step {}", at);
        assert_eq!(car.position.y, py, "y at step {}", at);
    }
    assert_eq!(car.velocity.x, 182874);
    assert_eq!(car.velocity.y, 520542);
    assert_eq!(car.angular_velocity, 92875);
    assert_eq!(car.wheel_roll, 1061656);
}

#[test]
fn nominal_spawn_is_deterministic() {
    let car = fresh_car();
    let c = car.config;
    assert_eq!(c.gravity, 655360);
    assert_eq!(c.mass, 98304000);
    assert_eq!(c.inertia_ratio, 19660);
    assert_eq!(c.width, 165148);
    assert_eq!(c.cg_to_front, 187169);
    assert_eq!(c.cg_to_rear, 187169);
    assert_eq!(c.cg_to_front_axle, 103676);
    assert_eq!(c.cg_to_rear_axle, 118356);
    assert_eq!(c.cg_height, 36044);
    assert_eq!(c.wheel_radius, 29491);
    assert_eq!(c.tire_grip, 327680);
    assert_eq!(c.engine_force, 524288000);
    assert_eq!(c.brake_force, 786432000);
    assert_eq!(c.max_steer, 45875);
    assert_eq!(c.corner_stiffness_front, 917504);
    assert_eq!(c.corner_stiffness_rear, 930611);
    assert_eq!(c.air_resistance, 163840);
    assert_eq!(c.roll_resistance, 655360);
    assert_eq!(c.body_height, 91750);
    assert_eq!(car.config.wheel_base(), 103676 + 118356);
}

#[test]
fn randomized_spawn_stays_well_formed() {
    for _ in 0..20 {
        // a tenth of randomization: the loosely controlled fields stay
        // within ten percent of nominal
        let car = CarComponent::new_stiff(0, Vec2Fx { x: 0, y: 0 }, 6553);
        assert!(car.config.mass >= 88474500 && car.config.mass <= 108133500);
        assert!(car.config.wheel_radius > 0);
        assert!(car.config.cg_to_front_axle > 0);
        assert!(car.config.cg_to_rear_axle > 0);
        assert!(car.config.engine_force >= 0);
        assert_eq!(car.velocity, Vec2Fx { x: 0, y: 0 });
        // the suspension tuning is fixed, never jittered
        assert_eq!(car.front_susp.stiffness, 2752512000);
        assert_eq!(car.front_susp.dampening, 163840000);
        assert_eq!(car.front_susp.eq_length, 0);
        assert_eq!(car.rear_susp.stiffness, 2228224000);
        assert_eq!(car.rear_susp.dampening, 144179200);
        assert_eq!(car.rear_susp.eq_length, 3276);
    }
}

#[test]
fn getters_follow_the_pose() {
    let mut car = fresh_car();
    car.velocity = Vec2Fx { x: 3 * SCALE, y: 4 * SCALE };
    assert_eq!(car.speed(), 5 * SCALE);
    let d = car.dir();
    assert_eq!(d, Vec2Fx { x: SCALE, y: 0 });
    let r = car.right();
    assert_eq!(r, Vec2Fx { x: 0, y: SCALE });
    assert_eq!(car.wheel_turn(), 0);
    car.steer = SCALE;
    assert_eq!(car.wheel_turn(), car.config.max_steer);
    let (h, p) = car.spatial_state();
    assert_eq!(h, 0);
    assert_eq!(p, Vec2Fx { x: 0, y: 0 });
    let p3 = car.pos3();
    assert_eq!(fx_add(p3.x, 0), 0);
    assert_eq!(p3.y, 0);
}

#[test]
fn reset_returns_to_origin() {
    let mut car = fresh_car();
    car.throttle = SCALE;
    for _ in 0..100 {
        car.update(DT);
    }
    assert!(car.position.x != 0);
    car.reset();
    assert_eq!(car.position, Vec2Fx { x: 0, y: 0 });
    assert_eq!(car.velocity, Vec2Fx { x: 0, y: 0 });
    assert_eq!(car.heading, 0);
    assert_eq!(car.angular_velocity, 0);
}
