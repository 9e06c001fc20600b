use skyracer::fx::SCALE;
use skyracer::suspension::Suspension;

const DT: i64 = 1092;

#[test]
fn fresh_corner_rests_at_equilibrium() {
    let s = Suspension::new(3276, 144179200, 2228224000);
    assert_eq!(s.length, 3276);
    assert_eq!(s.velocity, 0);
    assert_eq!(s.eq_length, 3276);
}

#[test]
fn one_step_under_load_is_exact() {
    // the rear corner of the nominal car under a five hundred newton load
    let mut s = Suspension::new(3276, 144179200, 2228224000);
    s.apply_force(32768000, DT, 98304000);
    assert_eq!(s.velocity, -363);
    assert_eq!(s.length, 3270);
    s.apply_force(32768000, DT, 98304000);
    assert_eq!(s.velocity, -715);
    assert_eq!(s.length, 3259);
}

#[test]
fn overdamped_corner_settles_at_static_compression() {
    // an overdamped corner: equilibrium ten units, the static load
    // compresses it by seven and a half; the length converges there
    let mut s = Suspension::new(655360, 65536000, 6553600);
    let load: i64 = 49152000;
    let mass: i64 = 98304000;
    for _ in 0..6000 {
        s.apply_force(load, DT, mass);
    }
    // eq_length - load / stiffness
    let target: i64 = 655360 - (load * SCALE) / 6553600;
    assert_eq!(target, 163840);
    assert!((s.length - target).abs() <= 400, "length {} target {}", s.length, target);
    // and it stays there
    let settled = s.length;
    for _ in 0..2000 {
        s.apply_force(load, DT, mass);
    }
    assert!((s.length - settled).abs() <= 2);
}

#[test]
fn body_pose_follows_the_suspension() {
    let car = skyracer::car::CarComponent::new_stiff(
        0,
        skyracer::vec::Vec2Fx { x: 0, y: 0 },
        0,
    );
    // at rest: the mean suspension length above the wheel radius, and a
    // slight nose-down pitch from the longer rear spring
    let (height, pitch) = car.body_pose();
    assert_eq!(height, 31129);
    assert_eq!(pitch, -1017);
}

#[test]
fn spring_pushes_back_toward_equilibrium() {
    // a corner released below its equilibrium length moves back up
    let mut s = Suspension::new(655360, 65536000, 6553600);
    s.length = 100000;
    for _ in 0..600 {
        s.apply_force(0, DT, 98304000);
    }
    assert!(s.length > 100000);
    assert!(s.length <= 655360 + 65536);
}
