//! Fixed-point plane and space vectors used by the simulation: world
//! positions and velocities are `Vec2Fx`, camera and wheel geometry use
//! `Vec3Fx`.

use vstd::prelude::*;

verus! {

use crate::fx::{
    SCALE,
    FX_LIM,
    fx_ok,
    sat,
    fx_add_s,
    fx_sub_s,
    fx_mul_s,
    fx_div_s,
    fx_add,
    fx_sub,
    fx_mul,
    fx_div,
};
use crate::trig::{isqrt_s, isqrt, lemma_isqrt_below};

/// A plane vector in the fixed-point encoding.
#[derive(Clone, Copy, Debug, PartialEq, Eq, Structural)]
pub struct Vec2Fx {
    pub x: i64,
    pub y: i64,
}

/// A space vector in the fixed-point encoding.
#[derive(Clone, Copy, Debug, PartialEq, Eq, Structural)]
pub struct Vec3Fx {
    pub x: i64,
    pub y: i64,
    pub z: i64,
}

/// What the fixed-point dot product of two plane vectors returns.
pub open spec fn dot_s(ax: int, ay: int, bx: int, by: int) -> int {
    fx_add_s(fx_mul_s(ax, bx), fx_mul_s(ay, by))
}

/// What the fixed-point length of a plane vector returns.
pub open spec fn len2_s(x: int, y: int) -> int {
    sat(isqrt_s((x * x + y * y) as nat) as int)
}

/// What the fixed-point length of a space vector returns.
pub open spec fn len3_s(x: int, y: int, z: int) -> int {
    sat(isqrt_s((x * x + y * y + z * z) as nat) as int)
}

impl Vec2Fx {
    /// Both components are representable.
    pub open spec fn wf(self) -> bool {
        fx_ok(self.x as int) && fx_ok(self.y as int)
    }

    /// The origin.
    pub fn zero() -> (r: Vec2Fx)
        ensures
            r.x == 0 && r.y == 0,
            r.wf(),
    {
        Vec2Fx { x: 0, y: 0 }
    }

    /// Componentwise saturating sum.
    pub fn vadd(self, o: Vec2Fx) -> (r: Vec2Fx)
        requires
            self.wf(),
            o.wf(),
        ensures
            r.x == fx_add_s(self.x as int, o.x as int),
            r.y == fx_add_s(self.y as int, o.y as int),
            r.wf(),
    {
        Vec2Fx { x: fx_add(self.x, o.x), y: fx_add(self.y, o.y) }
    }

    /// Componentwise saturating difference.
    pub fn vsub(self, o: Vec2Fx) -> (r: Vec2Fx)
        requires
            self.wf(),
            o.wf(),
        ensures
            r.x == fx_sub_s(self.x as int, o.x as int),
            r.y == fx_sub_s(self.y as int, o.y as int),
            r.wf(),
    {
        Vec2Fx { x: fx_sub(self.x, o.x), y: fx_sub(self.y, o.y) }
    }

    /// Both components scaled by a fixed-point factor.
    pub fn scale(self, k: i64) -> (r: Vec2Fx)
        requires
            self.wf(),
            fx_ok(k as int),
        ensures
            r.x == fx_mul_s(self.x as int, k as int),
            r.y == fx_mul_s(self.y as int, k as int),
            r.wf(),
    {
        Vec2Fx { x: fx_mul(self.x, k), y: fx_mul(self.y, k) }
    }

    /// Fixed-point dot product.
    pub fn dot(self, o: Vec2Fx) -> (r: i64)
        requires
            self.wf(),
            o.wf(),
        ensures
            r == dot_s(self.x as int, self.y as int, o.x as int, o.y as int),
            fx_ok(r as int),
    {
        fx_add(fx_mul(self.x, o.x), fx_mul(self.y, o.y))
    }

    /// The vector turned a quarter turn: the carrier of the car's sideways
    /// axis.
    pub fn perp(self) -> (r: Vec2Fx)
        requires
            self.wf(),
        ensures
            r.x == -(self.y as int),
            r.y == self.x as int,
            r.wf(),
    {
        Vec2Fx { x: -self.y, y: self.x }
    }

    /// Fixed-point Euclidean length.
    pub fn length(self) -> (r: i64)
        requires
            self.wf(),
        ensures
            r == len2_s(self.x as int, self.y as int),
            0 <= r <= FX_LIM,
    {
        let xa: u128 = if self.x >= 0 {
            self.x as u128
        } else {
            (-self.x) as u128
        };
        let ya: u128 = if self.y >= 0 {
            self.y as u128
        } else {
            (-self.y) as u128
        };
        assert(xa * xa == (self.x as int) * (self.x as int) && xa * xa <= (FX_LIM as u128) * (
        FX_LIM as u128)) by (nonlinear_arith)
            requires
                xa == (if self.x as int >= 0 { self.x as int } else { -(self.x as int) }),
                xa <= FX_LIM as u128,
        ;
        assert(ya * ya == (self.y as int) * (self.y as int) && ya * ya <= (FX_LIM as u128) * (
        FX_LIM as u128)) by (nonlinear_arith)
            requires
                ya == (if self.y as int >= 0 { self.y as int } else { -(self.y as int) }),
                ya <= FX_LIM as u128,
        ;
        let n: u128 = xa * xa + ya * ya;
        assert(n < 0x4000_0000_0000_0000_0000_0000_0000_0000) by (nonlinear_arith)
            requires
                n <= (FX_LIM as u128) * (FX_LIM as u128) + (FX_LIM as u128) * (FX_LIM as u128),
        ;
        let r: u128 = isqrt(n);
        if r > FX_LIM as u128 {
            FX_LIM
        } else {
            r as i64
        }
    }

    /// The unit vector carrying the same direction; zero stays zero.
    pub fn sgn(self) -> (r: Vec2Fx)
        requires
            self.wf(),
        ensures
            r.x == fx_div_s(self.x as int, len2_s(self.x as int, self.y as int)),
            r.y == fx_div_s(self.y as int, len2_s(self.x as int, self.y as int)),
            r.wf(),
    {
        let l: i64 = self.length();
        Vec2Fx { x: fx_div(self.x, l), y: fx_div(self.y, l) }
    }
}

impl Vec3Fx {
    /// All components are representable.
    pub open spec fn wf(self) -> bool {
        fx_ok(self.x as int) && fx_ok(self.y as int) && fx_ok(self.z as int)
    }

    /// The origin.
    pub fn zero() -> (r: Vec3Fx)
        ensures
            r.x == 0 && r.y == 0 && r.z == 0,
            r.wf(),
    {
        Vec3Fx { x: 0, y: 0, z: 0 }
    }

    /// Componentwise saturating sum.
    pub fn vadd(self, o: Vec3Fx) -> (r: Vec3Fx)
        requires
            self.wf(),
            o.wf(),
        ensures
            r.x == fx_add_s(self.x as int, o.x as int),
            r.y == fx_add_s(self.y as int, o.y as int),
            r.z == fx_add_s(self.z as int, o.z as int),
            r.wf(),
    {
        Vec3Fx { x: fx_add(self.x, o.x), y: fx_add(self.y, o.y), z: fx_add(self.z, o.z) }
    }

    /// Componentwise saturating difference.
    pub fn vsub(self, o: Vec3Fx) -> (r: Vec3Fx)
        requires
            self.wf(),
            o.wf(),
        ensures
            r.x == fx_sub_s(self.x as int, o.x as int),
            r.y == fx_sub_s(self.y as int, o.y as int),
            r.z == fx_sub_s(self.z as int, o.z as int),
            r.wf(),
    {
        Vec3Fx { x: fx_sub(self.x, o.x), y: fx_sub(self.y, o.y), z: fx_sub(self.z, o.z) }
    }

    /// All components scaled by a fixed-point factor.
    pub fn scale(self, k: i64) -> (r: Vec3Fx)
        requires
            self.wf(),
            fx_ok(k as int),
        ensures
            r.x == fx_mul_s(self.x as int, k as int),
            r.y == fx_mul_s(self.y as int, k as int),
            r.z == fx_mul_s(self.z as int, k as int),
            r.wf(),
    {
        Vec3Fx { x: fx_mul(self.x, k), y: fx_mul(self.y, k), z: fx_mul(self.z, k) }
    }

    /// Fixed-point Euclidean length.
    pub fn length(self) -> (r: i64)
        requires
            self.wf(),
        ensures
            r == len3_s(self.x as int, self.y as int, self.z as int),
            0 <= r <= FX_LIM,
    {
        let xa: u128 = if self.x >= 0 {
            self.x as u128
        } else {
            (-self.x) as u128
        };
        let ya: u128 = if self.y >= 0 {
            self.y as u128
        } else {
            (-self.y) as u128
        };
        let za: u128 = if self.z >= 0 {
            self.z as u128
        } else {
            (-self.z) as u128
        };
        assert(xa * xa == (self.x as int) * (self.x as int) && xa * xa <= (FX_LIM as u128) * (
        FX_LIM as u128)) by (nonlinear_arith)
            requires
                xa == (if self.x as int >= 0 { self.x as int } else { -(self.x as int) }),
                xa <= FX_LIM as u128,
        ;
        assert(ya * ya == (self.y as int) * (self.y as int) && ya * ya <= (FX_LIM as u128) * (
        FX_LIM as u128)) by (nonlinear_arith)
            requires
                ya == (if self.y as int >= 0 { self.y as int } else { -(self.y as int) }),
                ya <= FX_LIM as u128,
        ;
        assert(za * za == (self.z as int) * (self.z as int) && za * za <= (FX_LIM as u128) * (
        FX_LIM as u128)) by (nonlinear_arith)
            requires
                za == (if self.z as int >= 0 { self.z as int } else { -(self.z as int) }),
                za <= FX_LIM as u128,
        ;
        let n: u128 = xa * xa + ya * ya + za * za;
        assert(n < 0x4000_0000_0000_0000_0000_0000_0000_0000) by (nonlinear_arith)
            requires
                n <= (FX_LIM as u128) * (FX_LIM as u128) + (FX_LIM as u128) * (FX_LIM as u128) + (
                FX_LIM as u128) * (FX_LIM as u128),
        ;
        let r: u128 = isqrt(n);
        if r > FX_LIM as u128 {
            FX_LIM
        } else {
            r as i64
        }
    }

    /// The unit vector carrying the same direction; zero stays zero.
    pub fn sgn(self) -> (r: Vec3Fx)
        requires
            self.wf(),
        ensures
            r.x == fx_div_s(self.x as int, len3_s(self.x as int, self.y as int, self.z as int)),
            r.y == fx_div_s(self.y as int, len3_s(self.x as int, self.y as int, self.z as int)),
            r.z == fx_div_s(self.z as int, len3_s(self.x as int, self.y as int, self.z as int)),
            r.wf(),
    {
        let l: i64 = self.length();
        Vec3Fx { x: fx_div(self.x, l), y: fx_div(self.y, l), z: fx_div(self.z, l) }
    }
}

} // verus!
