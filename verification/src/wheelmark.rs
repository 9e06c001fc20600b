//! The tire-trail emitter: per car and frame, the four wheel contact
//! points; when the travel direction diverges from the heading (a drift),
//! one quad-strip segment per wheel goes into a fixed-size ring buffer,
//! faded by speed and slip. A pure consumer of car state.

use vstd::prelude::*;

verus! {

use crate::car::{CarComponent, speed_s};
use crate::fx::{
    SCALE,
    FX_LIM,
    fx_ok,
    clamp_s,
    abs_s,
    fx_add_s,
    fx_sub_s,
    fx_mul_s,
    fx_div_s,
    fx_sub,
    fx_mul,
    fx_div,
    fx_abs,
    fx_clamp,
};
use crate::trig::{sin_s, cos_s};
use crate::vec::{Vec3Fx, dot_s, len2_s};

/// Drifting starts when the travel direction departs this far from the
/// heading.
pub const DRIFT_DOT_T: i64 = 58982;

/// How many trail segments the ring buffer holds.
pub const MARK_BUFFER_SIZE: usize = 500;

/// One emitted trail segment: from the wheel's previous contact point to
/// the current one, with its fade.
#[derive(Clone, Copy, Debug, PartialEq, Eq, Structural)]
pub struct MarkSegment {
    pub from: Vec3Fx,
    pub to: Vec3Fx,
    pub alpha: i64,
}

/// How closely the car travels the way it points: the dot of its pointing
/// direction with its unit velocity.
pub open spec fn drift_dot_s(car: CarComponent) -> int {
    let l = len2_s(car.velocity.x as int, car.velocity.y as int);
    dot_s(
        cos_s(car.heading as int),
        sin_s(car.heading as int),
        fx_div_s(car.velocity.x as int, l),
        fx_div_s(car.velocity.y as int, l),
    )
}

/// The fade of an emitted segment: speed through a window, doubled, times
/// how far the travel direction has left the heading.
pub open spec fn mark_alpha_s(car: CarComponent) -> int {
    fx_mul_s(
        fx_mul_s(
            fx_div_s(fx_sub_s(clamp_s(speed_s(car), 1310720, 2621440), 1310720), 1310720),
            2 * SCALE,
        ),
        fx_sub_s(SCALE as int, abs_s(drift_dot_s(car))),
    )
}

/// The contact point of wheel `i`: front wheels sit a front-axle length
/// ahead, rear wheels a rear-axle length behind; the first two wheels sit
/// half the body width to the right, the last two to the left.
pub open spec fn wheel_point_s(car: CarComponent, i: int) -> (int, int, int) {
    let px = car.position.x as int;
    let py = car.terrain_height as int;
    let pz = car.position.y as int;
    let dx = cos_s(car.heading as int);
    let dz = sin_s(car.heading as int);
    let rx = -sin_s(car.heading as int);
    let rz = cos_s(car.heading as int);
    let along = if i == 0 || i == 2 {
        car.config.cg_to_front_axle as int
    } else {
        car.config.cg_to_rear_axle as int
    };
    let bx = if i == 0 || i == 2 {
        fx_add_s(px, fx_mul_s(dx, along))
    } else {
        fx_sub_s(px, fx_mul_s(dx, along))
    };
    let by = if i == 0 || i == 2 {
        fx_add_s(py, fx_mul_s(0, along))
    } else {
        fx_sub_s(py, fx_mul_s(0, along))
    };
    let bz = if i == 0 || i == 2 {
        fx_add_s(pz, fx_mul_s(dz, along))
    } else {
        fx_sub_s(pz, fx_mul_s(dz, along))
    };
    let sx = fx_mul_s(fx_mul_s(rx, car.config.width as int), 32768);
    let sy = fx_mul_s(fx_mul_s(0, car.config.width as int), 32768);
    let sz = fx_mul_s(fx_mul_s(rz, car.config.width as int), 32768);
    if i == 0 || i == 1 {
        (fx_add_s(bx, sx), fx_add_s(by, sy), fx_add_s(bz, sz))
    } else {
        (fx_sub_s(bx, sx), fx_sub_s(by, sy), fx_sub_s(bz, sz))
    }
}

/// The tire-trail emitter: a ring of segments and each wheel's previous
/// contact point per car.
pub struct WheelMark {
    pub segments: Vec<MarkSegment>,
    pub prev_pos: Vec<Vec3Fx>,
    pub next_id: usize,
}

impl WheelMark {
    /// The ring is full-size, every car has its four remembered contact
    /// points, and the cursor is inside the ring.
    pub open spec fn wf(self) -> bool {
        &&& self.segments@.len() == MARK_BUFFER_SIZE
        &&& self.next_id < MARK_BUFFER_SIZE
        &&& self.prev_pos@.len() % 4 == 0
        &&& forall|j: int| 0 <= j < self.prev_pos@.len() ==> (#[trigger] self.prev_pos@[j]).wf()
        &&& forall|j: int|
            0 <= j < self.segments@.len() ==> (#[trigger] self.segments@[j]).from.wf()
                && self.segments@[j].to.wf() && fx_ok(self.segments@[j].alpha as int)
    }

    /// A fresh emitter for `car_count` cars: an empty ring and zeroed
    /// remembered contact points.
    pub fn new(car_count: usize) -> (r: WheelMark)
        requires
            car_count <= 0xffff,
        ensures
            r.wf(),
            r.next_id == 0,
            r.prev_pos@.len() == 4 * car_count,
            forall|j: int|
                0 <= j < r.segments@.len() ==> (#[trigger] r.segments@[j]) == (MarkSegment {
                    from: Vec3Fx { x: 0, y: 0, z: 0 },
                    to: Vec3Fx { x: 0, y: 0, z: 0 },
                    alpha: 0,
                }),
    {
        let zero = Vec3Fx { x: 0, y: 0, z: 0 };
        let blank = MarkSegment { from: zero, to: zero, alpha: 0 };
        let mut segments: Vec<MarkSegment> = Vec::new();
        let mut i: usize = 0;
        while i < MARK_BUFFER_SIZE
            invariant
                i <= MARK_BUFFER_SIZE,
                segments@.len() == i,
                blank == (MarkSegment {
                    from: Vec3Fx { x: 0, y: 0, z: 0 },
                    to: Vec3Fx { x: 0, y: 0, z: 0 },
                    alpha: 0,
                }),
                forall|j: int|
                    0 <= j < segments@.len() ==> (#[trigger] segments@[j]) == (MarkSegment {
                        from: Vec3Fx { x: 0, y: 0, z: 0 },
                        to: Vec3Fx { x: 0, y: 0, z: 0 },
                        alpha: 0,
                    }),
            decreases MARK_BUFFER_SIZE - i,
        {
            segments.push(blank);
            i = i + 1;
        }
        let mut prev_pos: Vec<Vec3Fx> = Vec::new();
        let mut k: usize = 0;
        while k < 4 * car_count
            invariant
                car_count <= 0xffff,
                k <= 4 * car_count,
                prev_pos@.len() == k,
                zero == (Vec3Fx { x: 0, y: 0, z: 0 }),
                forall|j: int| 0 <= j < prev_pos@.len() ==> (#[trigger] prev_pos@[j]).wf(),
            decreases 4 * car_count - k,
        {
            prev_pos.push(zero);
            k = k + 1;
        }
        proof {
            vstd::arithmetic::div_mod::lemma_mod_multiples_basic(car_count as int, 4);
            assert((car_count as int) * 4 == 4 * (car_count as int)) by (nonlinear_arith);
        }
        WheelMark { segments, prev_pos, next_id: 0 }
    }

    /// The contact point of one wheel of the car, exactly as
    /// `wheel_point_s` says.
    fn wheel_point(car: &CarComponent, i: usize) -> (r: Vec3Fx)
        requires
            car.wf(),
            i < 4,
        ensures
            (r.x as int, r.y as int, r.z as int) == wheel_point_s(*car, i as int),
            r.wf(),
    {
        let p = car.pos3();
        let f = car.dir3();
        let r3 = car.right3();
        let along: i64 = if i == 0 || i == 2 {
            car.config.cg_to_front_axle
        } else {
            car.config.cg_to_rear_axle
        };
        let base = if i == 0 || i == 2 {
            p.vadd(f.scale(along))
        } else {
            p.vsub(f.scale(along))
        };
        let side = r3.scale(car.config.width).scale(32768);
        if i == 0 || i == 1 {
            base.vadd(side)
        } else {
            base.vsub(side)
        }
    }

    /// One emitter frame for car `j`: compute the four wheel contact
    /// points; when the car drifts, write one segment per wheel into the
    /// ring at the cursor; always remember the new contact points.
    pub fn update(&mut self, j: usize, car: &CarComponent)
        requires
            old(self).wf(),
            car.wf(),
            4 * j + 4 <= old(self).prev_pos@.len(),
        ensures
            final(self).wf(),
            final(self).prev_pos@.len() == old(self).prev_pos@.len(),
            forall|i: int|
                0 <= i < 4 ==> ((#[trigger] final(self).prev_pos@[4 * j + i]).x as int,
                final(self).prev_pos@[4 * j + i].y as int,
                final(self).prev_pos@[4 * j + i].z as int) == wheel_point_s(*car, i),
            forall|k: int|
                0 <= k < final(self).prev_pos@.len() && !(4 * j <= k < 4 * j + 4)
                    ==> #[trigger] final(self).prev_pos@[k] == old(self).prev_pos@[k],
            drift_dot_s(*car) >= DRIFT_DOT_T ==> final(self).segments@ == old(self).segments@
                && final(self).next_id == old(self).next_id,
            drift_dot_s(*car) < DRIFT_DOT_T ==> final(self).next_id == ((old(self).next_id
                + 4) as int % (MARK_BUFFER_SIZE as int)) as usize && (forall|i: int|
                0 <= i < 4 ==> #[trigger] final(self).segments@[((old(self).next_id + i) as int % (
                MARK_BUFFER_SIZE as int))] == (MarkSegment {
                    from: old(self).prev_pos@[4 * j + i],
                    to: Vec3Fx {
                        x: wheel_point_s(*car, i).0 as i64,
                        y: wheel_point_s(*car, i).1 as i64,
                        z: wheel_point_s(*car, i).2 as i64,
                    },
                    alpha: mark_alpha_s(*car) as i64,
                })),
    {
        let plen: usize = self.prev_pos.len();
        assert(4 * (j as int) + 4 <= plen as int);
        let base: usize = 4 * j;
        let w0 = Self::wheel_point(car, 0);
        let w1 = Self::wheel_point(car, 1);
        let w2 = Self::wheel_point(car, 2);
        let w3 = Self::wheel_point(car, 3);

        let dotp: i64 = car.dir().dot(car.velocity.sgn());

        if dotp < DRIFT_DOT_T {
            let t1: i64 = fx_div(fx_sub(fx_clamp(car.speed(), 1310720, 2621440), 1310720), 1310720);
            let t2: i64 = fx_mul(t1, 2 * SCALE);
            let alpha: i64 = fx_mul(t2, fx_sub(SCALE, fx_abs(dotp)));
            assert(alpha == mark_alpha_s(*car));

            let ghost n0 = self.next_id as int;
            proof {
                lemma_wrap(n0, 0);
            }
            let seg0 = MarkSegment { from: self.prev_pos[base], to: w0, alpha };
            self.segments.set(self.next_id, seg0);
            self.next_id = wrap_cursor(self.next_id);
            proof {
                lemma_wrap(n0, 1);
            }
            let seg1 = MarkSegment { from: self.prev_pos[base + 1], to: w1, alpha };
            self.segments.set(self.next_id, seg1);
            self.next_id = wrap_cursor(self.next_id);
            proof {
                lemma_wrap(n0, 2);
            }
            let seg2 = MarkSegment { from: self.prev_pos[base + 2], to: w2, alpha };
            self.segments.set(self.next_id, seg2);
            self.next_id = wrap_cursor(self.next_id);
            proof {
                lemma_wrap(n0, 3);
            }
            let seg3 = MarkSegment { from: self.prev_pos[base + 3], to: w3, alpha };
            self.segments.set(self.next_id, seg3);
            self.next_id = wrap_cursor(self.next_id);
            proof {
                lemma_wrap(n0, 4);
                lemma_wrap_distinct(n0);
            }
        }

        self.prev_pos.set(base, w0);
        self.prev_pos.set(base + 1, w1);
        self.prev_pos.set(base + 2, w2);
        self.prev_pos.set(base + 3, w3);
    }
}

/// Step the ring cursor.
fn wrap_cursor(id: usize) -> (r: usize)
    requires
        id < MARK_BUFFER_SIZE,
    ensures
        r == (id + 1) as int % (MARK_BUFFER_SIZE as int),
        r < MARK_BUFFER_SIZE,
{
    proof {
        if id + 1 < MARK_BUFFER_SIZE {
            vstd::arithmetic::div_mod::lemma_small_mod((id + 1) as nat, MARK_BUFFER_SIZE as nat);
        } else {
            vstd::arithmetic::div_mod::lemma_mod_self_0(MARK_BUFFER_SIZE as int);
        }
    }
    if id + 1 == MARK_BUFFER_SIZE {
        0
    } else {
        id + 1
    }
}

/// Successive wrapped cursor positions advance the base position by one
/// each step.
proof fn lemma_wrap(n0: int, i: int)
    requires
        0 <= n0 < MARK_BUFFER_SIZE,
        0 <= i <= 4,
    ensures
        (n0 + i) % (MARK_BUFFER_SIZE as int) == if n0 + i < MARK_BUFFER_SIZE {
            n0 + i
        } else {
            n0 + i - MARK_BUFFER_SIZE
        },
        ((n0 + i) % (MARK_BUFFER_SIZE as int)) + 1 == (n0 + i + 1) % (MARK_BUFFER_SIZE as int)
            || (n0 + i) % (MARK_BUFFER_SIZE as int) == MARK_BUFFER_SIZE - 1,
{
    let m = MARK_BUFFER_SIZE as int;
    if n0 + i < m {
        vstd::arithmetic::div_mod::lemma_small_mod((n0 + i) as nat, m as nat);
    } else {
        vstd::arithmetic::div_mod::lemma_fundamental_div_mod_converse(n0 + i, m, 1, n0 + i - m);
    }
    if n0 + i + 1 < m {
        vstd::arithmetic::div_mod::lemma_small_mod((n0 + i + 1) as nat, m as nat);
    } else {
        vstd::arithmetic::div_mod::lemma_fundamental_div_mod_converse(
            n0 + i + 1,
            m,
            1,
            n0 + i + 1 - m,
        );
    }
}

/// The four wrapped cursor positions of one emission are pairwise
/// distinct.
proof fn lemma_wrap_distinct(n0: int)
    requires
        0 <= n0 < MARK_BUFFER_SIZE,
    ensures
        forall|a: int, b: int|
            #![trigger (n0 + a) % (MARK_BUFFER_SIZE as int), (n0 + b) % (MARK_BUFFER_SIZE as int)]
            0 <= a < 4 && 0 <= b < 4 && a != b ==> (n0 + a) % (MARK_BUFFER_SIZE as int) != (n0
                + b) % (MARK_BUFFER_SIZE as int),
{
    let m = MARK_BUFFER_SIZE as int;
    assert forall|a: int, b: int|
        #![trigger (n0 + a) % (MARK_BUFFER_SIZE as int), (n0 + b) % (MARK_BUFFER_SIZE as int)]
        0 <= a < 4 && 0 <= b < 4 && a != b implies (n0 + a) % m != (n0 + b) % m by {
        lemma_wrap(n0, a);
        lemma_wrap(n0, b);
    }
}

} // verus!
