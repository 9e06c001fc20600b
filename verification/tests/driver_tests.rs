use skyracer::car::CarComponent;
use skyracer::driver::{CarDriveState, CarDriver, DriverAction, Key, Steering};
use skyracer::fx::SCALE;
use skyracer::vec::Vec2Fx;

const DT: i64 = 1092;

fn fresh_car() -> CarComponent {
    CarComponent::new_stiff(0, Vec2Fx { x: 0, y: 0 }, 0)
}

#[test]
fn steering_transition_table() {
    let cases: [(Steering, Key, bool, Steering); 12] = [
        (Steering::Neutral, Key::A, true, Steering::Left),
        (Steering::Neutral, Key::D, true, Steering::Right),
        (Steering::Right, Key::A, true, Steering::Neutral),
        (Steering::Left, Key::D, true, Steering::Neutral),
        (Steering::Left, Key::A, false, Steering::Neutral),
        (Steering::Right, Key::D, false, Steering::Neutral),
        (Steering::Neutral, Key::A, false, Steering::Right),
        (Steering::Neutral, Key::D, false, Steering::Left),
        // combinations the table leaves alone
        (Steering::Left, Key::A, true, Steering::Left),
        (Steering::Right, Key::D, true, Steering::Right),
        (Steering::Left, Key::D, false, Steering::Left),
        (Steering::Right, Key::A, false, Steering::Right),
    ];
    for (start, key, pressed, want) in cases {
        let mut driver = CarDriver::new();
        driver.steering = start;
        let mut car = fresh_car();
        let action = driver.key_event(&mut car, key, pressed);
        assert_eq!(driver.steering, want);
        assert_eq!(action, DriverAction::Nothing);
    }
}

#[test]
fn throttle_and_brake_follow_the_keys() {
    let mut driver = CarDriver::new();
    let mut car = fresh_car();
    driver.key_event(&mut car, Key::W, true);
    assert!(driver.throttling);
    driver.update(&mut car, DT);
    assert_eq!(car.throttle, SCALE);
    assert_eq!(car.brake, 0);
    driver.key_event(&mut car, Key::W, false);
    driver.key_event(&mut car, Key::S, true);
    driver.update(&mut car, DT);
    assert_eq!(car.throttle, 0);
    assert_eq!(car.brake, SCALE);
}

#[test]
fn steer_relaxes_at_a_fixed_rate() {
    let mut driver = CarDriver::new();
    let mut car = fresh_car();
    driver.key_event(&mut car, Key::D, true);
    assert_eq!(driver.steering, Steering::Right);
    driver.update(&mut car, DT);
    // the rate is two per second: 2 * dt per frame
    assert_eq!(car.steer, 2184);
    driver.update(&mut car, DT);
    assert_eq!(car.steer, 4368);
    // releasing D returns the intent to neutral and the steer toward zero
    driver.key_event(&mut car, Key::D, false);
    assert_eq!(driver.steering, Steering::Neutral);
    driver.update(&mut car, DT);
    assert_eq!(car.steer, 2184);
    driver.update(&mut car, DT);
    assert_eq!(car.steer, 0);
    driver.update(&mut car, DT);
    assert_eq!(car.steer, 0);
}

#[test]
fn steer_clamps_at_full_lock() {
    let mut driver = CarDriver::new();
    let mut car = fresh_car();
    driver.key_event(&mut car, Key::A, true);
    for _ in 0..100 {
        driver.update(&mut car, DT);
    }
    assert_eq!(car.steer, -SCALE);
}

#[test]
fn recorder_run_length_encodes_the_drive() {
    let mut driver = CarDriver::new();
    let mut car = fresh_car();
    // three frames of the initial state, then a change
    driver.update(&mut car, DT);
    driver.update(&mut car, DT);
    driver.update(&mut car, DT);
    assert_eq!(driver.states.len(), 0);
    assert_eq!(driver.update_id, 3);
    driver.key_event(&mut car, Key::W, true);
    driver.update(&mut car, DT);
    // the held state was pushed; the new current state carries the old
    // one's repeat count, as the recorder always wrote it
    assert_eq!(driver.states.len(), 1);
    assert_eq!(driver.states[0].throttle, 0);
    assert_eq!(driver.states[0].update_id, 0);
    assert_eq!(driver.state.update_id, 3);
    assert_eq!(driver.update_id, 0);
    assert_eq!(driver.state.throttle, SCALE);
}

#[test]
fn reset_key_discards_the_recording() {
    let mut driver = CarDriver::new();
    let mut car = fresh_car();
    driver.key_event(&mut car, Key::W, true);
    driver.update(&mut car, DT);
    car.position = Vec2Fx { x: 999, y: 999 };
    car.acceleration = Vec2Fx { x: 55, y: -55 };
    let action = driver.key_event(&mut car, Key::R, false);
    assert_eq!(action, DriverAction::Nothing);
    assert_eq!(car.position, Vec2Fx { x: 0, y: 0 });
    assert_eq!(car.acceleration, Vec2Fx { x: 0, y: 0 });
    assert_eq!(driver.states.len(), 0);
}

#[test]
fn save_key_asks_for_the_recording() {
    let mut driver = CarDriver::new();
    let mut car = fresh_car();
    assert_eq!(driver.key_event(&mut car, Key::P, true), DriverAction::Nothing);
    assert_eq!(driver.key_event(&mut car, Key::P, false), DriverAction::SaveRecording);
}

#[test]
fn drive_states_compare_by_triple_only() {
    let a = CarDriveState { brake: 1, throttle: 2, steer: 3, update_id: 7 };
    let b = CarDriveState { brake: 1, throttle: 2, steer: 3, update_id: 99 };
    let c = CarDriveState { brake: 1, throttle: 2, steer: 4, update_id: 7 };
    assert!(a == b);
    assert!(a != c);
    let d = CarDriveState::default();
    assert_eq!(d.update_id, 0);
    assert!(d == CarDriveState { brake: 0, throttle: 0, steer: 0, update_id: 5 });
}
