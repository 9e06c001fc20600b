use skyracer::car::CarComponent;
use skyracer::driver::CarDriveState;
use skyracer::fx::SCALE;
use skyracer::playback::{encode_trace, expand_trace, PlaybackDriver};
use skyracer::vec::Vec2Fx;

fn fresh_car() -> CarComponent {
    CarComponent::new_stiff(0, Vec2Fx { x: 0, y: 0 }, 0)
}

fn st(brake: i64, throttle: i64, steer: i64, update_id: usize) -> CarDriveState {
    CarDriveState { brake, throttle, steer, update_id }
}

#[test]
fn round_trip_reproduces_the_triples() {
    // a drive: three frames idle, two at full throttle, one braking,
    // three more at full throttle
    let frames = vec![
        st(0, 0, 0, 0),
        st(0, 0, 0, 0),
        st(0, 0, 0, 0),
        st(0, SCALE, 0, 0),
        st(0, SCALE, 0, 0),
        st(SCALE, 0, 0, 0),
        st(0, SCALE, 100, 0),
        st(0, SCALE, 100, 0),
        st(0, SCALE, 100, 0),
    ];
    let encoded = encode_trace(&frames);
    assert_eq!(encoded.len(), 4);
    assert_eq!(encoded[0].update_id, 2);
    assert_eq!(encoded[1].update_id, 1);
    assert_eq!(encoded[2].update_id, 0);
    assert_eq!(encoded[3].update_id, 2);
    let expanded = expand_trace(&encoded);
    assert_eq!(expanded.len(), frames.len());
    for (a, b) in expanded.iter().zip(frames.iter()) {
        assert_eq!(a.brake, b.brake);
        assert_eq!(a.throttle, b.throttle);
        assert_eq!(a.steer, b.steer);
    }
}

#[test]
fn round_trip_of_an_empty_trace() {
    let frames: Vec<CarDriveState> = vec![];
    let encoded = encode_trace(&frames);
    assert_eq!(encoded.len(), 0);
    let expanded = expand_trace(&encoded);
    assert_eq!(expanded.len(), 0);
}

#[test]
fn playback_holds_each_state_for_its_count() {
    // one state held for two extra frames, then another applied at once
    let queue = vec![st(0, SCALE, 0, 2), st(SCALE, 0, 0, 0)];
    let mut pb = PlaybackDriver::new(queue);
    let mut car = fresh_car();
    // two waiting frames: nothing applied yet
    pb.update(&mut car);
    assert_eq!(car.throttle, 0);
    pb.update(&mut car);
    assert_eq!(car.throttle, 0);
    // the third frame matches the count: the state lands and is popped
    pb.update(&mut car);
    assert_eq!(car.throttle, SCALE);
    assert_eq!(car.brake, 0);
    // the next state has count zero: applied on the very next frame
    pb.update(&mut car);
    assert_eq!(car.brake, SCALE);
    assert_eq!(car.throttle, 0);
    // an exhausted stack leaves the controls alone
    pb.update(&mut car);
    assert_eq!(car.brake, SCALE);
}

#[test]
fn playback_reverses_the_queue_onto_its_stack() {
    let queue = vec![st(1, 0, 0, 0), st(2, 0, 0, 0), st(3, 0, 0, 0)];
    let pb = PlaybackDriver::new(queue);
    assert_eq!(pb.state_stack[0].brake, 3);
    assert_eq!(pb.state_stack[1].brake, 2);
    assert_eq!(pb.state_stack[2].brake, 1);
}
