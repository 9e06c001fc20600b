//! The camera-follow controller: a desired position in the car's local
//! frame per view mode, approached with a speed that grows with the
//! positional error, plus the view-mode cycle and the car-switching keys.
//! A pure consumer of car state.

use vstd::prelude::*;

verus! {

use crate::car::CarComponent;
use crate::driver::Key;
use crate::fx::{
    SCALE,
    FX_LIM,
    fx_ok,
    fx_add_s,
    fx_sub_s,
    fx_mul_s,
    fx_div_s,
    fx_add,
    fx_min,
    fx_max,
    fx_mul,
};
use crate::trig::{sin_s, cos_s};
use crate::vec::{Vec3Fx, len3_s};

/// The camera view modes.
#[derive(Clone, Copy, Debug, PartialEq, Eq, Structural)]
pub enum CamView {
    Racer,
    TopDown,
    Side,
}

impl CamView {
    /// The next view mode in the cycle.
    pub fn cycle(self) -> (r: CamView)
        ensures
            r == (match self {
                CamView::Racer => CamView::Side,
                CamView::Side => CamView::TopDown,
                CamView::TopDown => CamView::Racer,
            }),
    {
        match self {
            CamView::Racer => CamView::Side,
            CamView::Side => CamView::TopDown,
            CamView::TopDown => CamView::Racer,
        }
    }
}

/// The camera follower: which car it tracks, the view mode, the free-fly
/// flag, the growing speed cap, and the camera pose it owns.
pub struct CamFollowCar {
    pub car_count: usize,
    pub active_car: usize,
    pub view: CamView,
    pub free_view: bool,
    pub max_cam_speed: i64,
    pub cam_pos: Vec3Fx,
    pub cam_target: Vec3Fx,
}

/// Where the camera wants to be for a view mode: a fixed offset in the
/// car's local frame.
pub open spec fn cam_should_be_s(view: CamView, car: CarComponent) -> (int, int, int) {
    let px = car.position.x as int;
    let py = car.terrain_height as int;
    let pz = car.position.y as int;
    let dx = cos_s(car.heading as int);
    let dz = sin_s(car.heading as int);
    let rx = -sin_s(car.heading as int);
    let rz = cos_s(car.heading as int);
    match view {
        CamView::Racer => (
            fx_sub_s(px, fx_mul_s(dx, 655360)),
            fx_add_s(py, 327680),
            fx_sub_s(pz, fx_mul_s(dz, 655360)),
        ),
        CamView::Side => (
            fx_add_s(px, fx_mul_s(rx, 458752)),
            fx_add_s(py, 131072),
            fx_add_s(pz, fx_mul_s(rz, 458752)),
        ),
        CamView::TopDown => (
            fx_sub_s(px, fx_mul_s(dx, 32768)),
            fx_add_s(py, 1114112),
            fx_sub_s(pz, fx_mul_s(dz, 32768)),
        ),
    }
}

/// The catch-up step length for a frame: a base speed plus linear and
/// quadratic terms of the distance, capped by the growing speed limit.
pub open spec fn cam_step_s(d: int, max_cam_speed: int, dt: int) -> int {
    fx_mul_s(
        if fx_add_s(fx_add_s(2162688, fx_mul_s(d, 26214)), fx_mul_s(fx_mul_s(d, d), 19660))
            <= max_cam_speed {
            fx_add_s(fx_add_s(2162688, fx_mul_s(d, 26214)), fx_mul_s(fx_mul_s(d, d), 19660))
        } else {
            max_cam_speed
        },
        dt,
    )
}

/// One point moved toward another by at most the step: snaps when within
/// the step or already almost there.
pub open spec fn move_toward_s(from: Vec3Fx, to: (int, int, int), step: int) -> (int, int, int) {
    let dx = fx_sub_s(to.0, from.x as int);
    let dy = fx_sub_s(to.1, from.y as int);
    let dz = fx_sub_s(to.2, from.z as int);
    let d = len3_s(dx, dy, dz);
    if d < step || d < 65 {
        to
    } else {
        (
            fx_add_s(from.x as int, fx_mul_s(fx_div_s(dx, d), step)),
            fx_add_s(from.y as int, fx_mul_s(fx_div_s(dy, d), step)),
            fx_add_s(from.z as int, fx_mul_s(fx_div_s(dz, d), step)),
        )
    }
}

impl CamFollowCar {
    /// There are cars, the tracked one exists, the pose is representable.
    pub open spec fn wf(self) -> bool {
        &&& 0 < self.car_count <= 0xffff
        &&& (self.active_car as int) < self.car_count
        &&& fx_ok(self.max_cam_speed as int)
        &&& self.cam_pos.wf()
        &&& self.cam_target.wf()
    }

    /// A fresh follower on the first of `car_count` cars, its camera put
    /// a little above the desired chase position, aimed at the car.
    pub fn new(car_count: usize, free_view: bool, car: &CarComponent) -> (r: CamFollowCar)
        requires
            0 < car_count <= 0xffff,
            car.wf(),
        ensures
            r.wf(),
            r.car_count == car_count,
            r.active_car == 0,
            r.view == CamView::Racer,
            r.free_view == free_view,
            r.max_cam_speed == 0,
            (r.cam_pos.x as int, r.cam_pos.y as int, r.cam_pos.z as int) == {
                let p = cam_should_be_s(CamView::Racer, *car);
                (p.0, fx_add_s(p.1, 327680), p.2)
            },
            r.cam_target.x == car.position.x,
            r.cam_target.y == car.terrain_height,
            r.cam_target.z == car.position.y,
    {
        let p = Self::should_be_pos(CamView::Racer, car);
        let pos = Vec3Fx { x: p.x, y: fx_add(p.y, 327680), z: p.z };
        CamFollowCar {
            car_count,
            active_car: 0,
            view: CamView::Racer,
            free_view,
            max_cam_speed: 0,
            cam_pos: pos,
            cam_target: car.pos3(),
        }
    }

    /// The desired camera position for a view mode, in the car's local
    /// frame.
    pub fn should_be_pos(view: CamView, car: &CarComponent) -> (r: Vec3Fx)
        requires
            car.wf(),
        ensures
            (r.x as int, r.y as int, r.z as int) == cam_should_be_s(view, *car),
            r.wf(),
    {
        let p = car.pos3();
        let d = car.dir3();
        let r3 = car.right3();
        match view {
            CamView::Racer => p.vadd(Vec3Fx { x: 0, y: 327680, z: 0 }).vsub(d.scale(655360)),
            CamView::Side => p.vadd(Vec3Fx { x: 0, y: 131072, z: 0 }).vadd(r3.scale(458752)),
            CamView::TopDown => p.vadd(Vec3Fx { x: 0, y: 1114112, z: 0 }).vsub(d.scale(32768)),
        }
    }

    /// One camera frame in follow mode: move the camera and its aim
    /// toward the desired pose by the same capped step, and let the speed
    /// cap grow. In free-fly mode the camera is left alone.
    pub fn update(&mut self, car: &CarComponent, dt: i64)
        requires
            old(self).wf(),
            car.wf(),
            0 <= dt <= SCALE,
        ensures
            final(self).wf(),
            final(self).car_count == old(self).car_count,
            final(self).active_car == old(self).active_car,
            final(self).view == old(self).view,
            final(self).free_view == old(self).free_view,
            old(self).free_view ==> *final(self) == *old(self),
            !old(self).free_view ==> {
                let p = cam_should_be_s(old(self).view, *car);
                let dx = fx_sub_s(p.0, old(self).cam_pos.x as int);
                let dy = fx_sub_s(p.1, old(self).cam_pos.y as int);
                let dz = fx_sub_s(p.2, old(self).cam_pos.z as int);
                let d = len3_s(dx, dy, dz);
                let step = cam_step_s(d, old(self).max_cam_speed as int, dt as int);
                &&& (final(self).cam_pos.x as int, final(self).cam_pos.y as int, final(self).cam_pos.z as int) == move_toward_s(old(self).cam_pos, p, step)
                &&& (final(self).cam_target.x as int, final(self).cam_target.y as int, final(self).cam_target.z as int) == move_toward_s(
                    old(self).cam_target,
                    (car.position.x as int, car.terrain_height as int, car.position.y as int),
                    step,
                )
                &&& final(self).max_cam_speed == {
                    let tripled = fx_mul_s(196608, old(self).max_cam_speed as int);
                    let raised = if 655360000 >= tripled {
                        655360000
                    } else {
                        tripled
                    };
                    let capped = if raised <= 6553600 {
                        raised
                    } else {
                        6553600
                    };
                    fx_add_s(old(self).max_cam_speed as int, fx_mul_s(capped, dt as int))
                }
            },
    {
        if !self.free_view {
            let p = Self::should_be_pos(self.view, car);
            let delta = p.vsub(self.cam_pos);
            let d: i64 = delta.length();
            let growth: i64 = fx_add(fx_add(2162688, fx_mul(d, 26214)), fx_mul(fx_mul(d, d), 19660));
            let step: i64 = fx_mul(fx_min(growth, self.max_cam_speed), dt);
            let new_pos = Self::move_toward(self.cam_pos, p, step);
            let car_pos = car.pos3();
            let new_target = Self::move_toward(self.cam_target, car_pos, step);
            self.cam_pos = new_pos;
            self.cam_target = new_target;
            let bump: i64 = fx_mul(fx_min(fx_max(655360000, fx_mul(196608, self.max_cam_speed)), 6553600), dt);
            self.max_cam_speed = fx_add(self.max_cam_speed, bump);
        }
    }

    /// Move one point toward another by at most `step`, exactly as
    /// `move_toward_s` says.
    fn move_toward(from: Vec3Fx, to: Vec3Fx, step: i64) -> (r: Vec3Fx)
        requires
            from.wf(),
            to.wf(),
            fx_ok(step as int),
        ensures
            (r.x as int, r.y as int, r.z as int) == move_toward_s(
                from,
                (to.x as int, to.y as int, to.z as int),
                step as int,
            ),
            r.wf(),
    {
        let delta = to.vsub(from);
        let d: i64 = delta.length();
        if d < step || d < 65 {
            to
        } else {
            let dir = delta.sgn();
            from.vadd(dir.scale(step))
        }
    }

    /// A key event: T cycles the view (or leaves free-fly), Y toggles
    /// free-fly, the bracket keys switch the followed car; each zeroes
    /// the speed cap so the camera eases in again.
    pub fn key_event(&mut self, key: Key, pressed: bool)
        requires
            old(self).wf(),
        ensures
            final(self).wf(),
            final(self).car_count == old(self).car_count,
            final(self).cam_pos == old(self).cam_pos,
            final(self).cam_target == old(self).cam_target,
            key == Key::T && !pressed ==> final(self).free_view == false && final(self).view == (
            if old(self).free_view {
                old(self).view
            } else {
                match old(self).view {
                    CamView::Racer => CamView::Side,
                    CamView::Side => CamView::TopDown,
                    CamView::TopDown => CamView::Racer,
                }
            }) && final(self).max_cam_speed == 0 && final(self).active_car == old(self).active_car,
            key == Key::Y && !pressed ==> final(self).free_view == !old(self).free_view && final(self).view == old(self).view && final(self).max_cam_speed == 0 && final(self).active_car
                == old(self).active_car,
            key == Key::LBracket && !pressed ==> final(self).active_car == ((old(self).active_car
                + 1) as int % (old(self).car_count as int)) as usize && final(self).max_cam_speed
                == 0 && final(self).view == old(self).view && final(self).free_view == old(self).free_view,
            key == Key::RBracket && !pressed ==> final(self).active_car == ((old(self).active_car
                + old(self).car_count - 1) as int % (old(self).car_count as int)) as usize && final(self).max_cam_speed == 0 && final(self).view == old(self).view && final(self).free_view
                == old(self).free_view,
            !((key == Key::T || key == Key::Y || key == Key::LBracket || key == Key::RBracket)
                && !pressed) ==> *final(self) == *old(self),
    {
        if key == Key::T && !pressed {
            if self.free_view {
                self.free_view = false;
            } else {
                self.view = self.view.cycle();
            }
            self.max_cam_speed = 0;
        }
        if key == Key::Y && !pressed {
            if self.free_view {
                self.free_view = false;
            } else {
                self.free_view = true;
            }
            self.max_cam_speed = 0;
        }
        if key == Key::LBracket && !pressed {
            let n = self.car_count;
            self.active_car = (self.active_car + 1) % n;
            self.max_cam_speed = 0;
        }
        if key == Key::RBracket && !pressed {
            let n = self.car_count;
            self.active_car = (self.active_car + n - 1) % n;
            self.max_cam_speed = 0;
        }
    }
}

} // verus!
