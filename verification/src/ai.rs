//! The AI control source: follow a lane polyline sampled from the track
//! centerline, steering toward the next waypoint with a jittered gain,
//! throttling off smoothly near the top speed, and advancing the waypoint
//! inside the capture radius.

use vstd::prelude::*;

verus! {

use crate::car::{CarComponent, speed_s};
use crate::fx::{
    SCALE,
    FX_LIM,
    fx_ok,
    clamp_s,
    fx_add_s,
    fx_sub_s,
    fx_mul_s,
    fx_div_s,
    smoothstep_s,
    fx_add,
    fx_sub,
    fx_mul,
    fx_clamp,
    fx_smoothstep,
    lemma_fx_mul_comm,
    lemma_fx_mul_contract,
    lemma_fx_mul_nonneg,
};
use crate::rng::rand_unit_fx;
use crate::track::{TrackError, sample_path};
use crate::trig::{sin_s, cos_s, lemma_isqrt_below};
use crate::vec::{Vec2Fx, dot_s, len2_s};

/// A waypoint counts as reached within this distance.
pub const CAPTURE_RADIUS: i64 = 196608;

/// The largest steering change the AI applies per frame.
pub const AI_STEER_STEP: i64 = 6553;

/// The speed where the AI starts lifting off the throttle.
pub const AI_LIFT_LO: i64 = 3014656;

/// The speed where the AI throttle falloff ends.
pub const AI_LIFT_HI: i64 = 3145728;

/// The jittered aim of the AI: a lateral offset from the waypoint, a
/// steering gain, and the time left until the next re-jitter.
#[derive(Clone, Copy, Debug)]
pub struct AiTarget {
    pub offset: Vec2Fx,
    pub steer_coef: i64,
    pub time_left: i64,
}

impl AiTarget {
    /// Everything representable.
    pub open spec fn wf(self) -> bool {
        self.offset.wf() && fx_ok(self.steer_coef as int) && fx_ok(self.time_left as int)
    }

    /// The initial aim: no offset, gain two, first re-jitter after a
    /// second and a half.
    pub fn new() -> (r: AiTarget)
        ensures
            r.offset.x == 0 && r.offset.y == 0,
            r.steer_coef == 131072,
            r.time_left == 98304,
            r.wf(),
    {
        AiTarget { offset: Vec2Fx { x: 0, y: 0 }, steer_coef: 131072, time_left: 98304 }
    }
}

/// The scripted driver of one car.
pub struct AiDriver {
    pub track_points: Vec<Vec2Fx>,
    pub next_pt: usize,
    pub target: AiTarget,
}

/// Where the AI aims: the next waypoint pushed by the jitter offset.
pub open spec fn ai_target_pos_s(d: AiDriver) -> (int, int) {
    (
        fx_add_s(d.track_points@[d.next_pt as int].x as int, d.target.offset.x as int),
        fx_add_s(d.track_points@[d.next_pt as int].y as int, d.target.offset.y as int),
    )
}

/// The distance from the car to the aim point.
pub open spec fn ai_dist_s(d: AiDriver, car: CarComponent) -> int {
    len2_s(
        fx_sub_s(ai_target_pos_s(d).0, car.position.x as int),
        fx_sub_s(ai_target_pos_s(d).1, car.position.y as int),
    )
}

/// The steer value the AI writes: the aim direction's sideways component
/// times the gain, approached from the current steer in bounded steps.
///
/// The desired term is the smooth form of steering by the sign of the
/// lateral offset to the target: it carries exactly that sign, with the
/// full gain when the aim point lies square to the side and proportionally
/// less as it comes in front.
pub open spec fn ai_steer_s(d: AiDriver, car: CarComponent) -> int {
    let vx = fx_sub_s(ai_target_pos_s(d).0, car.position.x as int);
    let vy = fx_sub_s(ai_target_pos_s(d).1, car.position.y as int);
    let l = len2_s(vx, vy);
    let desired = fx_mul_s(
        dot_s(
            fx_div_s(vx, l),
            fx_div_s(vy, l),
            -sin_s(car.heading as int),
            cos_s(car.heading as int),
        ),
        d.target.steer_coef as int,
    );
    fx_add_s(
        clamp_s(
            fx_sub_s(desired, car.steer as int),
            -AI_STEER_STEP as int,
            AI_STEER_STEP as int,
        ),
        car.steer as int,
    )
}

/// The throttle the AI writes: full below the lift window, fading to half
/// through it.
pub open spec fn ai_throttle_s(car: CarComponent) -> int {
    fx_add_s(
        fx_mul_s(smoothstep_s(speed_s(car), AI_LIFT_LO as int, AI_LIFT_HI as int), -32768),
        SCALE as int,
    )
}

impl AiDriver {
    /// Waypoints exist and everything indexes within them.
    pub open spec fn wf(self) -> bool {
        &&& self.track_points@.len() > 0
        &&& forall|j: int| 0 <= j < self.track_points@.len() ==> (#[trigger] self.track_points@[j]).wf()
        &&& (self.next_pt as int) < self.track_points@.len()
        &&& self.target.wf()
    }

    /// Build the driver for one lane: sample the fixed-up centerline
    /// control points five times per Bezier segment, offset by the lane.
    /// A list too short for one segment is rejected.
    pub fn new(control_points: &Vec<Vec2Fx>, lane: i64) -> (r: Result<AiDriver, TrackError>)
        requires
            forall|j: int| 0 <= j < control_points@.len() ==> (#[trigger] control_points@[j]).wf(),
            fx_ok(lane as int),
            control_points@.len() <= 0xffff_ffff,
        ensures
            control_points@.len() < 4 ==> r is Err && r->Err_0 == TrackError::TooFewPoints,
            control_points@.len() >= 4 ==> r is Ok && r->Ok_0.wf() && r->Ok_0.next_pt == 0
                && r->Ok_0.track_points@.len() == 5 * ((control_points@.len() - 1) / 3)
                && (forall|k: int|
                0 <= k < r->Ok_0.track_points@.len() ==> ((#[trigger] r->Ok_0.track_points@[k]).x as int,
                    r->Ok_0.track_points@[k].y as int) == crate::track::sample_pt_s(
                    control_points@,
                    lane as int,
                    5,
                    k,
                )),
    {
        if control_points.len() < 4 {
            return Err(TrackError::TooFewPoints);
        }
        let pts = sample_path(control_points, lane, 5);
        proof {
            assert(5 * ((control_points@.len() - 1) / 3) >= 5) by {
                assert((control_points@.len() - 1) / 3 >= 1) by {
                    vstd::arithmetic::div_mod::lemma_div_is_ordered(
                        3,
                        control_points@.len() - 1,
                        3,
                    );
                }
            }
        }
        Ok(AiDriver { track_points: pts, next_pt: 0, target: AiTarget::new() })
    }

    /// One AI frame: steer toward the aim point, throttle by the speed
    /// falloff, never brake; advance the waypoint when inside the capture
    /// radius; and when the jitter timer runs out, re-draw the aim offset,
    /// the steering gain and the timer within their fixed bounds.
    pub fn update(&mut self, car: &mut CarComponent, dt: i64)
        requires
            old(self).wf(),
            old(car).wf(),
            0 <= dt <= SCALE,
        ensures
            final(self).wf(),
            final(car).wf(),
            final(car).steer == ai_steer_s(*old(self), *old(car)),
            final(car).brake == 0,
            final(car).throttle == ai_throttle_s(*old(car)),
            final(car).config == old(car).config,
            final(car).position == old(car).position,
            final(car).velocity == old(car).velocity,
            final(car).acceleration == old(car).acceleration,
            final(car).heading == old(car).heading,
            final(car).angular_velocity == old(car).angular_velocity,
            final(car).wheel_roll == old(car).wheel_roll,
            final(car).terrain_height == old(car).terrain_height,
            final(car).front_susp == old(car).front_susp,
            final(car).rear_susp == old(car).rear_susp,
            final(self).track_points@ == old(self).track_points@,
            // waypoint advancement: exactly inside the capture radius
            final(self).next_pt == if ai_dist_s(*old(self), *old(car)) < CAPTURE_RADIUS {
                ((old(self).next_pt + 1) as int % (old(self).track_points@.len() as int)) as usize
            } else {
                old(self).next_pt
            },
            // the jitter timer counts down; when it runs out the aim is
            // re-drawn within its fixed bounds
            fx_sub_s(old(self).target.time_left as int, dt as int) > 0 ==> final(self).target.offset == old(self).target.offset && final(self).target.steer_coef == old(self).target.steer_coef && final(self).target.time_left == fx_sub_s(
                old(self).target.time_left as int,
                dt as int,
            ),
            fx_sub_s(old(self).target.time_left as int, dt as int) <= 0 ==> (
            -32768 <= final(self).target.offset.x <= 32768 && -32768 <= final(self).target.offset.y <= 32768 && 98304 <= final(self).target.steer_coef <= 163840
                && 58982 <= final(self).target.time_left <= 65535),
    {
        let target_pos = self.track_points[self.next_pt].vadd(self.target.offset);
        let v = target_pos.vsub(car.position);
        let d = car.dir();
        let vs = v.sgn();
        let desired: i64 = fx_mul(vs.dot(d.perp()), self.target.steer_coef);
        car.steer = fx_add(fx_clamp(fx_sub(desired, car.steer), -AI_STEER_STEP, AI_STEER_STEP), car.steer);
        car.brake = 0;
        let sm: i64 = fx_smoothstep(car.speed(), AI_LIFT_LO, AI_LIFT_HI);
        let lift: i64 = fx_mul(sm, -32768);
        proof {
            lemma_fx_mul_comm(sm as int, -32768);
            lemma_fx_mul_contract(-32768, sm as int);
            lemma_fx_mul_nonneg(sm as int, 32768);
            assert((sm as int) * (-32768) == -((sm as int) * 32768)) by (nonlinear_arith);
            assert(fx_mul_s(sm as int, -32768) <= 0 && fx_mul_s(sm as int, -32768) >= -32768);
        }
        car.throttle = fx_add(lift, SCALE);

        let dist: i64 = v.length();
        if dist < CAPTURE_RADIUS {
            assert(self.next_pt < self.track_points@.len());
            let n = self.track_points.len();
            self.next_pt = (self.next_pt + 1) % n;
        }

        let time_left: i64 = fx_sub(self.target.time_left, dt);
        if time_left <= 0 {
            let ox: i64 = rand_unit_fx() - 32768;
            let oy: i64 = rand_unit_fx() - 32768;
            let coef: i64 = fx_add(rand_unit_fx(), 98304);
            let ru: i64 = rand_unit_fx();
            let pause: i64 = fx_mul(ru, 6553);
            proof {
                lemma_fx_mul_comm(ru as int, 6553);
                lemma_fx_mul_contract(6553, ru as int);
                lemma_fx_mul_nonneg(ru as int, 6553);
            }
            let next: i64 = fx_add(pause, 58982);
            self.target = AiTarget {
                offset: Vec2Fx { x: ox, y: oy },
                steer_coef: coef,
                time_left: next,
            };
        } else {
            self.target.time_left = time_left;
        }
    }

    /// Releasing the reset key puts the car back at the origin at rest.
    pub fn key_event(&mut self, car: &mut CarComponent, key: crate::driver::Key, pressed: bool)
        requires
            old(car).wf(),
            old(self).wf(),
        ensures
            final(self).wf(),
            final(car).wf(),
            *final(self) == *old(self),
            key == crate::driver::Key::R && !pressed ==> final(car).position.x == 0 && final(car).position.y == 0 && final(car).velocity.x == 0 && final(car).velocity.y == 0 && final(car).acceleration.x == 0 && final(car).acceleration.y == 0 && final(car).heading == 0 && final(car).angular_velocity == 0,
            !(key == crate::driver::Key::R && !pressed) ==> *final(car) == *old(car),
    {
        if key == crate::driver::Key::R && !pressed {
            car.reset();
        }
    }
}

/// The waypoint capture test, without the square root: the aim point is
/// inside the capture radius exactly when the squared distance is below
/// the squared radius.
pub proof fn lemma_capture_squared(d: AiDriver, car: CarComponent)
    requires
        d.wf(),
        car.wf(),
    ensures
        (ai_dist_s(d, car) < CAPTURE_RADIUS) <==> {
            let vx = fx_sub_s(ai_target_pos_s(d).0, car.position.x as int);
            let vy = fx_sub_s(ai_target_pos_s(d).1, car.position.y as int);
            vx * vx + vy * vy < (CAPTURE_RADIUS as int) * (CAPTURE_RADIUS as int)
        },
{
    let vx = fx_sub_s(ai_target_pos_s(d).0, car.position.x as int);
    let vy = fx_sub_s(ai_target_pos_s(d).1, car.position.y as int);
    assert(vx * vx >= 0 && vy * vy >= 0) by (nonlinear_arith);
    lemma_isqrt_below((vx * vx + vy * vy) as nat, CAPTURE_RADIUS as nat);
    crate::trig::lemma_isqrt((vx * vx + vy * vy) as nat);
}

} // verus!
