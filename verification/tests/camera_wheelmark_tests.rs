use skyracer::camera::{CamFollowCar, CamView};
use skyracer::car::CarComponent;
use skyracer::driver::Key;
use skyracer::fx::SCALE;
use skyracer::vec::{Vec2Fx, Vec3Fx};
use skyracer::wheelmark::{MarkSegment, WheelMark, MARK_BUFFER_SIZE};

const DT: i64 = 1092;

fn fresh_car() -> CarComponent {
    CarComponent::new_stiff(0, Vec2Fx { x: 0, y: 0 }, 0)
}

#[test]
fn view_modes_cycle() {
    assert_eq!(CamView::Racer.cycle(), CamView::Side);
    assert_eq!(CamView::Side.cycle(), CamView::TopDown);
    assert_eq!(CamView::TopDown.cycle(), CamView::Racer);
}

#[test]
fn camera_starts_behind_and_above_the_car() {
    let car = fresh_car();
    let cam = CamFollowCar::new(3, false, &car);
    // chase view: ten units behind along x, five plus five units up
    assert_eq!(cam.cam_pos, Vec3Fx { x: -655360, y: 655360, z: 0 });
    assert_eq!(cam.cam_target, Vec3Fx { x: 0, y: 0, z: 0 });
    assert_eq!(cam.view, CamView::Racer);
    assert_eq!(cam.active_car, 0);
}

#[test]
fn camera_speed_cap_grows_each_frame() {
    let car = fresh_car();
    let mut cam = CamFollowCar::new(1, false, &car);
    let pos0 = cam.cam_pos;
    cam.update(&car, DT);
    // the first frame has a zero speed cap: the camera cannot move yet
    assert_eq!(cam.cam_pos, pos0);
    assert_eq!(cam.max_cam_speed, 109200);
    cam.update(&car, DT);
    // with the cap grown, the camera starts closing in
    assert!(cam.cam_pos.y < pos0.y);
}

#[test]
fn free_view_leaves_the_camera_alone() {
    let car = fresh_car();
    let mut cam = CamFollowCar::new(1, true, &car);
    let pos0 = cam.cam_pos;
    cam.update(&car, DT);
    assert_eq!(cam.cam_pos, pos0);
    assert_eq!(cam.max_cam_speed, 0);
}

#[test]
fn camera_keys_cycle_and_switch_cars() {
    let car = fresh_car();
    let mut cam = CamFollowCar::new(3, false, &car);
    cam.key_event(Key::T, false);
    assert_eq!(cam.view, CamView::Side);
    assert_eq!(cam.max_cam_speed, 0);
    cam.key_event(Key::Y, false);
    assert!(cam.free_view);
    cam.key_event(Key::T, false);
    // leaving free view does not cycle the mode
    assert!(!cam.free_view);
    assert_eq!(cam.view, CamView::Side);
    cam.key_event(Key::LBracket, false);
    assert_eq!(cam.active_car, 1);
    cam.key_event(Key::RBracket, false);
    assert_eq!(cam.active_car, 0);
    cam.key_event(Key::RBracket, false);
    assert_eq!(cam.active_car, 2);
    // a press without release changes nothing
    cam.key_event(Key::LBracket, true);
    assert_eq!(cam.active_car, 2);
}

#[test]
fn drifting_emits_four_segments() {
    let mut marks = WheelMark::new(1);
    assert_eq!(marks.segments.len(), MARK_BUFFER_SIZE);
    let mut car = fresh_car();
    // sliding sideways: the travel direction is square to the heading
    car.velocity = Vec2Fx { x: 0, y: 5 * SCALE };
    marks.update(0, &car);
    assert_eq!(marks.next_id, 4);
    // the first segment runs from the remembered origin to the front
    // right wheel's contact point
    assert_eq!(
        marks.segments[0],
        MarkSegment {
            from: Vec3Fx { x: 0, y: 0, z: 0 },
            to: Vec3Fx { x: 103676, y: 0, z: 82574 },
            alpha: 0,
        },
    );
    // the remembered contact points were replaced
    assert_eq!(marks.prev_pos[0], Vec3Fx { x: 103676, y: 0, z: 82574 });
}

#[test]
fn straight_travel_emits_nothing() {
    let mut marks = WheelMark::new(1);
    let mut car = fresh_car();
    car.velocity = Vec2Fx { x: 2 * SCALE, y: 0 };
    marks.update(0, &car);
    assert_eq!(marks.next_id, 0);
    assert_eq!(marks.segments[0].alpha, 0);
    // the contact points are remembered even without a mark
    assert_eq!(marks.prev_pos[0].x, 103676);
}

#[test]
fn mark_ring_wraps_around() {
    let mut marks = WheelMark::new(1);
    let mut car = fresh_car();
    car.velocity = Vec2Fx { x: 0, y: 5 * SCALE };
    marks.next_id = MARK_BUFFER_SIZE - 2;
    marks.update(0, &car);
    assert_eq!(marks.next_id, 2);
}
