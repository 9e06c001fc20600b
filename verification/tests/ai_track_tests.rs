use skyracer::ai::{AiDriver, CAPTURE_RADIUS};
use skyracer::car::CarComponent;
use skyracer::fx::SCALE;
use skyracer::track::{fix_curves, sample_path, Track, TrackError};
use skyracer::vec::Vec2Fx;

const DT: i64 = 1092;

fn pt(x: i64, y: i64) -> Vec2Fx {
    Vec2Fx { x: x * SCALE, y: y * SCALE }
}

/// A closed square-ish loop: four Bezier segments, thirteen control
/// points, handles a third of the way along each edge.
fn square_track() -> Vec<Vec2Fx> {
    vec![
        pt(0, 0),
        pt(30, 0),
        pt(60, 0),
        pt(90, 0),
        pt(90, 30),
        pt(90, 60),
        pt(90, 90),
        pt(60, 90),
        pt(30, 90),
        pt(0, 90),
        pt(0, 60),
        pt(0, 30),
        pt(0, 0),
    ]
}

fn fresh_car() -> CarComponent {
    CarComponent::new_stiff(0, Vec2Fx { x: 0, y: 0 }, 0)
}

#[test]
fn too_few_control_points_is_a_typed_error() {
    let raw = vec![pt(0, 0), pt(1, 0), pt(2, 0)];
    let r = Track::new(raw);
    assert_eq!(r.err(), Some(TrackError::TooFewPoints));
    let r2 = AiDriver::new(&vec![pt(0, 0)], 0);
    assert!(r2.is_err());
}

#[test]
fn track_keeps_fixed_control_points() {
    let track = Track::new(square_track()).ok().unwrap();
    let cps = track.track_curve_control_points();
    assert_eq!(cps.len(), 13);
    // the loop is closed onto the first point
    assert_eq!(cps[12], cps[0]);
    assert_eq!(Track::track_width(), 1887436);
}

#[test]
fn fixing_curves_closes_the_loop_and_reaims_the_handle() {
    let raw = vec![pt(0, 0), pt(10, 0), pt(20, 0), pt(30, 10)];
    let fixed = fix_curves(raw);
    assert_eq!(fixed[3], pt(0, 0));
    // the first handle keeps its distance but points along the closing
    // tangent, which runs backward along the x axis
    assert_eq!(fixed[1], Vec2Fx { x: -655360, y: 0 });
    assert_eq!(fixed[0], pt(0, 0));
    assert_eq!(fixed[2], pt(20, 0));
}

#[test]
fn sampling_starts_each_segment_at_its_first_control_point() {
    let cps = square_track();
    let pts = sample_path(&cps, 0, 5);
    assert_eq!(pts.len(), 20);
    // parameter zero of segment zero is the first control point
    assert_eq!(pts[0], pt(0, 0));
    // parameter zero of segment one is its first control point
    assert_eq!(pts[5], pt(90, 0));
}

#[test]
fn waypoint_advances_inside_the_capture_radius() {
    let track = Track::new(square_track()).ok().unwrap();
    let mut driver = AiDriver::new(track.track_curve_control_points(), 0).ok().unwrap();
    let n = driver.track_points.len();
    assert_eq!(n, 20);
    // place the car exactly at waypoint three: the next update advances
    // the target to waypoint four
    let mut car = fresh_car();
    driver.next_pt = 3;
    car.position = driver.track_points[3];
    driver.update(&mut car, DT);
    assert_eq!(driver.next_pt, 4);
    // just outside the capture radius nothing advances
    let mut car2 = fresh_car();
    car2.position = Vec2Fx {
        x: driver.track_points[4].x + CAPTURE_RADIUS + SCALE,
        y: driver.track_points[4].y,
    };
    driver.update(&mut car2, DT);
    assert_eq!(driver.next_pt, 4);
    // the last waypoint wraps around to the first
    let mut car3 = fresh_car();
    driver.next_pt = n - 1;
    car3.position = driver.track_points[n - 1];
    driver.update(&mut car3, DT);
    assert_eq!(driver.next_pt, 0);
}

#[test]
fn ai_drives_forward_and_never_brakes() {
    let track = Track::new(square_track()).ok().unwrap();
    let mut driver = AiDriver::new(track.track_curve_control_points(), 0).ok().unwrap();
    let mut car = fresh_car();
    car.position = pt(0, -20);
    driver.update(&mut car, DT);
    // at rest the AI gives full throttle and no brake
    assert_eq!(car.throttle, SCALE);
    assert_eq!(car.brake, 0);
    // the steering change per frame is bounded
    assert!(car.steer.abs() <= 6553);
}

#[test]
fn ai_jitter_stays_within_its_bounds() {
    let track = Track::new(square_track()).ok().unwrap();
    let mut driver = AiDriver::new(track.track_curve_control_points(), 0).ok().unwrap();
    let mut car = fresh_car();
    // run the timer out: the re-drawn aim stays inside its fixed bands
    driver.target.time_left = 1;
    driver.update(&mut car, DT);
    assert!(driver.target.offset.x >= -32768 && driver.target.offset.x <= 32768);
    assert!(driver.target.offset.y >= -32768 && driver.target.offset.y <= 32768);
    assert!(driver.target.steer_coef >= 98304 && driver.target.steer_coef <= 163840);
    assert!(driver.target.time_left >= 58982);
}
