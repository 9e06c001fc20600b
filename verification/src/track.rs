//! The race track's centerline: cubic Bezier control points in groups of
//! four with shared endpoints, closed into a loop, and sampled into the
//! polylines the AI and the mesh layer consume.

use vstd::prelude::*;

verus! {

use crate::fx::{
    SCALE,
    FX_LIM,
    fx_ok,
    div_down,
    fx_add_s,
    fx_sub_s,
    fx_mul_s,
    fx_div_s,
    fx_add,
    fx_sub,
    fx_mul,
    fx_div,
};
use crate::vec::{Vec2Fx, len2_s};

/// Message to the presentation layer: draw the track as wireframe or
/// filled.
#[derive(Clone, Copy, Debug, PartialEq, Eq, Structural)]
pub struct ShowWireframe(pub bool);

/// Message to the presentation layer: the line set changed and should be
/// re-uploaded.
#[derive(Clone, Copy, Debug, PartialEq, Eq, Structural)]
pub struct LinesUpdate {}

/// Why persisted track data was rejected.
#[derive(Clone, Copy, Debug, PartialEq, Eq, Structural)]
pub enum TrackError {
    /// Fewer control points than one Bezier segment needs.
    TooFewPoints,
}

/// The width of the paved track.
pub const TRACK_WIDTH: i64 = 1887436;

/// A point of a cubic Bezier arc: the Bernstein combination of the four
/// control points at parameter `t`.
pub open spec fn bezier_point_s(p0: Vec2Fx, p1: Vec2Fx, p2: Vec2Fx, p3: Vec2Fx, t: int) -> (
    int,
    int,
) {
    let u = fx_sub_s(SCALE as int, t);
    let c0 = fx_mul_s(fx_mul_s(u, u), u);
    let c1 = 3 * fx_mul_s(fx_mul_s(u, u), t);
    let c2 = 3 * fx_mul_s(fx_mul_s(u, t), t);
    let c3 = fx_mul_s(fx_mul_s(t, t), t);
    (
        fx_add_s(
            fx_add_s(fx_mul_s(c0, p0.x as int), fx_mul_s(c1, p1.x as int)),
            fx_add_s(fx_mul_s(c2, p2.x as int), fx_mul_s(c3, p3.x as int)),
        ),
        fx_add_s(
            fx_add_s(fx_mul_s(c0, p0.y as int), fx_mul_s(c1, p1.y as int)),
            fx_add_s(fx_mul_s(c2, p2.y as int), fx_mul_s(c3, p3.y as int)),
        ),
    )
}

/// The derivative of a cubic Bezier arc at parameter `t`.
pub open spec fn bezier_vel_s(p0: Vec2Fx, p1: Vec2Fx, p2: Vec2Fx, p3: Vec2Fx, t: int) -> (
    int,
    int,
) {
    let u = fx_sub_s(SCALE as int, t);
    let k0 = 3 * fx_mul_s(u, u);
    let k1 = 6 * fx_mul_s(u, t);
    let k2 = 3 * fx_mul_s(t, t);
    (
        fx_add_s(
            fx_add_s(
                fx_mul_s(k0, fx_sub_s(p1.x as int, p0.x as int)),
                fx_mul_s(k1, fx_sub_s(p2.x as int, p1.x as int)),
            ),
            fx_mul_s(k2, fx_sub_s(p3.x as int, p2.x as int)),
        ),
        fx_add_s(
            fx_add_s(
                fx_mul_s(k0, fx_sub_s(p1.y as int, p0.y as int)),
                fx_mul_s(k1, fx_sub_s(p2.y as int, p1.y as int)),
            ),
            fx_mul_s(k2, fx_sub_s(p3.y as int, p2.y as int)),
        ),
    )
}

/// The unit normal of a cubic Bezier arc at parameter `t`: the normalized
/// derivative turned a quarter turn.
pub open spec fn bezier_normal_s(p0: Vec2Fx, p1: Vec2Fx, p2: Vec2Fx, p3: Vec2Fx, t: int) -> (
    int,
    int,
) {
    let (vx, vy) = bezier_vel_s(p0, p1, p2, p3, t);
    let l = len2_s(vx, vy);
    (-crate::fx::fx_div_s(vy, l), crate::fx::fx_div_s(vx, l))
}

/// Evaluate a cubic Bezier arc: the point, the derivative, and the unit
/// normal at parameter `t`.
pub fn eval_bezier4(p0: Vec2Fx, p1: Vec2Fx, p2: Vec2Fx, p3: Vec2Fx, t: i64) -> (r: (
    Vec2Fx,
    Vec2Fx,
    Vec2Fx,
))
    requires
        p0.wf(),
        p1.wf(),
        p2.wf(),
        p3.wf(),
        0 <= t <= SCALE,
    ensures
        (r.0.x as int, r.0.y as int) == bezier_point_s(p0, p1, p2, p3, t as int),
        (r.1.x as int, r.1.y as int) == bezier_vel_s(p0, p1, p2, p3, t as int),
        (r.2.x as int, r.2.y as int) == bezier_normal_s(p0, p1, p2, p3, t as int),
        r.0.wf(),
        r.1.wf(),
        r.2.wf(),
{
    let u: i64 = fx_sub(SCALE, t);
    let uu: i64 = fx_mul(u, u);
    let ut: i64 = fx_mul(u, t);
    let tt: i64 = fx_mul(t, t);
    proof {
        crate::fx::lemma_fx_mul_contract(u as int, u as int);
        crate::fx::lemma_fx_mul_contract(u as int, t as int);
        crate::fx::lemma_fx_mul_contract(t as int, t as int);
    }
    let c0: i64 = fx_mul(uu, u);
    let c1: i64 = 3 * fx_mul(uu, t);
    let c2: i64 = 3 * fx_mul(ut, t);
    let c3: i64 = fx_mul(tt, t);
    proof {
        crate::fx::lemma_fx_mul_contract(uu as int, u as int);
        crate::fx::lemma_fx_mul_contract(uu as int, t as int);
        crate::fx::lemma_fx_mul_contract(ut as int, t as int);
        crate::fx::lemma_fx_mul_contract(tt as int, t as int);
    }
    let px: i64 = fx_add(fx_add(fx_mul(c0, p0.x), fx_mul(c1, p1.x)), fx_add(
        fx_mul(c2, p2.x),
        fx_mul(c3, p3.x),
    ));
    let py: i64 = fx_add(fx_add(fx_mul(c0, p0.y), fx_mul(c1, p1.y)), fx_add(
        fx_mul(c2, p2.y),
        fx_mul(c3, p3.y),
    ));
    let k0: i64 = 3 * fx_mul(u, u);
    let k1: i64 = 6 * fx_mul(u, t);
    let k2: i64 = 3 * fx_mul(t, t);
    let vx: i64 = fx_add(
        fx_add(fx_mul(k0, fx_sub(p1.x, p0.x)), fx_mul(k1, fx_sub(p2.x, p1.x))),
        fx_mul(k2, fx_sub(p3.x, p2.x)),
    );
    let vy: i64 = fx_add(
        fx_add(fx_mul(k0, fx_sub(p1.y, p0.y)), fx_mul(k1, fx_sub(p2.y, p1.y))),
        fx_mul(k2, fx_sub(p3.y, p2.y)),
    );
    let vel = Vec2Fx { x: vx, y: vy };
    let normal = vel.sgn().perp();
    (Vec2Fx { x: px, y: py }, vel, normal)
}

/// The fixed-up control points: the last point is forced onto the first
/// to close the loop, and the first inner handle is re-aimed along the
/// closing tangent at its old distance.
pub open spec fn fix_curves_s(pts: Seq<Vec2Fx>) -> Seq<Vec2Fx> {
    let n = pts.len() as int;
    let closed = pts.update(n - 1, pts[0]);
    let l = len2_s(
        fx_sub_s(closed[1].x as int, closed[0].x as int),
        fx_sub_s(closed[1].y as int, closed[0].y as int),
    );
    let dx = fx_sub_s(closed[n - 1].x as int, closed[n - 2].x as int);
    let dy = fx_sub_s(closed[n - 1].y as int, closed[n - 2].y as int);
    let dl = len2_s(dx, dy);
    let handle = Vec2Fx {
        x: fx_add_s(pts[0].x as int, fx_mul_s(fx_div_s(dx, dl), l)) as i64,
        y: fx_add_s(pts[0].y as int, fx_mul_s(fx_div_s(dy, dl), l)) as i64,
    };
    closed.update(1, handle)
}

/// Close a control polyline into a loop, as `fix_curves_s` says.
pub fn fix_curves(pts: Vec<Vec2Fx>) -> (r: Vec<Vec2Fx>)
    requires
        pts@.len() >= 2,
        forall|j: int| 0 <= j < pts@.len() ==> (#[trigger] pts@[j]).wf(),
    ensures
        r@ == fix_curves_s(pts@),
        r@.len() == pts@.len(),
        forall|j: int| 0 <= j < r@.len() ==> (#[trigger] r@[j]).wf(),
{
    let ghost orig = pts@;
    let mut out = pts;
    let n = out.len();
    let first = out[0];
    out.set(n - 1, first);
    let l: i64 = out[1].vsub(first).length();
    let d = out[n - 1].vsub(out[n - 2]).sgn();
    let handle = first.vadd(d.scale(l));
    out.set(1, handle);
    proof {
        assert(out@ =~= fix_curves_s(orig));
    }
    out
}

/// One sampled point of the lane polyline: segment `k / n` of the control
/// points, parameter `(k % n) / n`, pushed sideways along the arc normal
/// by the lane fraction of a seventh of the track width.
pub open spec fn sample_pt_s(cps: Seq<Vec2Fx>, lane: int, n: int, k: int) -> (int, int) {
    let seg = k / n;
    let j = k % n;
    let t = div_down(j * (SCALE as int), n);
    let p0 = cps[3 * seg];
    let p1 = cps[3 * seg + 1];
    let p2 = cps[3 * seg + 2];
    let p3 = cps[3 * seg + 3];
    let (px, py) = bezier_point_s(p0, p1, p2, p3, t);
    let (nx, ny) = bezier_normal_s(p0, p1, p2, p3, t);
    (
        fx_add_s(px, fx_mul_s(fx_div_s(fx_mul_s(nx, TRACK_WIDTH as int), 7 * (SCALE as int)), lane)),
        fx_add_s(py, fx_mul_s(fx_div_s(fx_mul_s(ny, TRACK_WIDTH as int), 7 * (SCALE as int)), lane)),
    )
}

/// Sample the centerline of the track into a lane polyline: `n` points
/// per Bezier segment, offset sideways by the lane fraction.
pub fn sample_path(cps: &Vec<Vec2Fx>, lane: i64, n: usize) -> (r: Vec<Vec2Fx>)
    requires
        cps@.len() >= 4,
        forall|j: int| 0 <= j < cps@.len() ==> (#[trigger] cps@[j]).wf(),
        fx_ok(lane as int),
        1 <= n <= 1000,
        cps@.len() <= 0xffff_ffff,
    ensures
        r@.len() == n * ((cps@.len() - 1) / 3),
        forall|k: int|
            0 <= k < r@.len() ==> ((#[trigger] r@[k]).x as int, r@[k].y as int) == sample_pt_s(
                cps@,
                lane as int,
                n as int,
                k,
            ),
        forall|k: int| 0 <= k < r@.len() ==> (#[trigger] r@[k]).wf(),
{
    let mut r: Vec<Vec2Fx> = Vec::new();
    let segs: usize = (cps.len() - 1) / 3;
    let mut seg: usize = 0;
    while seg < segs
        invariant
            cps@.len() >= 4,
            forall|j: int| 0 <= j < cps@.len() ==> (#[trigger] cps@[j]).wf(),
            fx_ok(lane as int),
            1 <= n <= 1000,
            cps@.len() <= 0xffff_ffff,
            segs == (cps@.len() - 1) / 3,
            seg <= segs,
            r@.len() == n * seg,
            forall|k: int|
                0 <= k < r@.len() ==> ((#[trigger] r@[k]).x as int, r@[k].y as int) == sample_pt_s(
                    cps@,
                    lane as int,
                    n as int,
                    k,
                ),
            forall|k: int| 0 <= k < r@.len() ==> (#[trigger] r@[k]).wf(),
        decreases segs - seg,
    {
        assert(3 * seg + 3 < cps@.len()) by {
            vstd::arithmetic::div_mod::lemma_fundamental_div_mod(cps@.len() - 1, 3);
            vstd::arithmetic::div_mod::lemma_mod_bound(cps@.len() - 1, 3);
            assert(3 * seg + 3 < cps@.len()) by (nonlinear_arith)
                requires
                    seg < segs,
                    cps@.len() - 1 == 3 * ((cps@.len() - 1) / 3) + (cps@.len() - 1) % 3,
                    0 <= (cps@.len() - 1) % 3,
                    segs == (cps@.len() - 1) / 3,
            ;
        }
        let p0 = cps[3 * seg];
        let p1 = cps[3 * seg + 1];
        let p2 = cps[3 * seg + 2];
        let p3 = cps[3 * seg + 3];
        let mut j: usize = 0;
        while j < n
            invariant
                cps@.len() >= 4,
                forall|jj: int| 0 <= jj < cps@.len() ==> (#[trigger] cps@[jj]).wf(),
                fx_ok(lane as int),
                1 <= n <= 1000,
                cps@.len() <= 0xffff_ffff,
                segs == (cps@.len() - 1) / 3,
                seg < segs,
                3 * seg + 3 < cps@.len(),
                p0 == cps@[3 * seg],
                p1 == cps@[3 * seg + 1],
                p2 == cps@[3 * seg + 2],
                p3 == cps@[3 * seg + 3],
                j <= n,
                r@.len() == n * seg + j,
                forall|k: int|
                    0 <= k < r@.len() ==> ((#[trigger] r@[k]).x as int, r@[k].y as int)
                        == sample_pt_s(cps@, lane as int, n as int, k),
                forall|k: int| 0 <= k < r@.len() ==> (#[trigger] r@[k]).wf(),
            decreases n - j,
        {
            let t: i64 = (((j as u64) * 65536) / (n as u64)) as i64;
            proof {
                assert((j as int) * (SCALE as int) <= (n as int) * (SCALE as int))
                    by (nonlinear_arith)
                    requires
                        j <= n,
                ;
                vstd::arithmetic::div_mod::lemma_div_is_ordered(
                    (j as int) * (SCALE as int),
                    (n as int) * (SCALE as int),
                    n as int,
                );
                vstd::arithmetic::div_mod::lemma_div_by_multiple(SCALE as int, n as int);
                assert((n as int) * (SCALE as int) == (SCALE as int) * (n as int))
                    by (nonlinear_arith);
                vstd::arithmetic::div_mod::lemma_div_pos_is_pos(
                    (j as int) * (SCALE as int),
                    n as int,
                );
                assert((j as int) * (SCALE as int) >= 0) by (nonlinear_arith)
                    requires
                        j >= 0,
                ;
            }
            let (bp, _bv, bn) = eval_bezier4(p0, p1, p2, p3, t);
            let off_x: i64 = fx_mul(fx_div(fx_mul(bn.x, TRACK_WIDTH), 7 * SCALE), lane);
            let off_y: i64 = fx_mul(fx_div(fx_mul(bn.y, TRACK_WIDTH), 7 * SCALE), lane);
            let pt = Vec2Fx { x: fx_add(bp.x, off_x), y: fx_add(bp.y, off_y) };
            let ghost k = r@.len() as int;
            r.push(pt);
            proof {
                assert(k / (n as int) == seg && k % (n as int) == j) by {
                    assert(k == (seg as int) * (n as int) + j) by (nonlinear_arith)
                        requires
                            k == (n as int) * (seg as int) + j,
                    ;
                    vstd::arithmetic::div_mod::lemma_fundamental_div_mod_converse(
                        k,
                        n as int,
                        seg as int,
                        j as int,
                    );
                }
                assert(((pt.x as int, pt.y as int)) == sample_pt_s(
                    cps@,
                    lane as int,
                    n as int,
                    k,
                ));
            }
            j = j + 1;
        }
        seg = seg + 1;
        proof {
            assert((n as int) * (seg as int) == (n as int) * ((seg as int) - 1) + (n as int))
                by (nonlinear_arith);
        }
    }
    proof {
        assert((n as int) * (segs as int) == n * ((cps@.len() - 1) / 3));
    }
    r
}

/// The track: its fixed-up centerline control points.
pub struct Track {
    pub control_points: Vec<Vec2Fx>,
}

impl Track {
    /// Accept raw persisted control points: reject a list too short for
    /// one Bezier segment, otherwise close the loop and keep the points.
    pub fn new(raw: Vec<Vec2Fx>) -> (r: Result<Track, TrackError>)
        requires
            forall|j: int| 0 <= j < raw@.len() ==> (#[trigger] raw@[j]).wf(),
        ensures
            raw@.len() < 4 ==> r is Err && r->Err_0 == TrackError::TooFewPoints,
            raw@.len() >= 4 ==> r is Ok && r->Ok_0.control_points@ == fix_curves_s(raw@)
                && r->Ok_0.wf(),
    {
        if raw.len() < 4 {
            return Err(TrackError::TooFewPoints);
        }
        let fixed = fix_curves(raw);
        Ok(Track { control_points: fixed })
    }

    /// Enough well-formed control points for at least one segment.
    pub open spec fn wf(self) -> bool {
        &&& self.control_points@.len() >= 4
        &&& forall|j: int| 0 <= j < self.control_points@.len() ==> (#[trigger] self.control_points@[j]).wf()
    }

    /// The fixed-up control points of the centerline.
    pub fn track_curve_control_points(&self) -> (r: &Vec<Vec2Fx>)
        ensures
            r@ == self.control_points@,
    {
        &self.control_points
    }

    /// The width of the paved track.
    pub fn track_width() -> (r: i64)
        ensures
            r == TRACK_WIDTH,
    {
        TRACK_WIDTH
    }
}

} // verus!
