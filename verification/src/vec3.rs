//! Three-dimensional vectors in fixed-point world units.
//!
//! `Vec3` is the executable type; its view `V3` carries the components as
//! unbounded integers, and all contracts are stated over `V3`.

use vstd::prelude::*;
use crate::fixed::{abs_sp, fits, mul_fp};

verus! {

/// Mathematical model of a vector: components as unbounded integers.
pub ghost struct V3 {
    pub x: int,
    pub y: int,
    pub z: int,
}

/// A vector of fixed-point coordinates (micro-units).
#[derive(Clone, Copy, Debug, PartialEq, Eq, Structural)]
pub struct Vec3 {
    pub x: i64,
    pub y: i64,
    pub z: i64,
}

impl View for Vec3 {
    type V = V3;

    open spec fn view(&self) -> V3 {
        V3 { x: self.x as int, y: self.y as int, z: self.z as int }
    }
}

/// Componentwise sum.
pub open spec fn vadd(a: V3, b: V3) -> V3 {
    V3 { x: a.x + b.x, y: a.y + b.y, z: a.z + b.z }
}

/// Componentwise fixed-point scaling by `k`.
pub open spec fn vscale_fp(a: V3, k: int) -> V3 {
    V3 { x: mul_fp(a.x, k), y: mul_fp(a.y, k), z: mul_fp(a.z, k) }
}

/// Squared magnitude in fixed point (scale of a squared length).
pub open spec fn vmag2_fp(a: V3) -> int {
    mul_fp(a.x, a.x) + mul_fp(a.y, a.y) + mul_fp(a.z, a.z)
}

/// Every component has magnitude at most `b`.
pub open spec fn vbounded(a: V3, b: int) -> bool {
    abs_sp(a.x) <= b && abs_sp(a.y) <= b && abs_sp(a.z) <= b
}

impl Vec3 {
    pub fn new(x: i64, y: i64, z: i64) -> (r: Vec3)
        ensures
            r@ == (V3 { x: x as int, y: y as int, z: z as int }),
    {
        Vec3 { x, y, z }
    }

    /// Componentwise sum.
    pub fn add(&self, o: &Vec3) -> (r: Vec3)
        requires
            fits(self.x + o.x),
            fits(self.y + o.y),
            fits(self.z + o.z),
        ensures
            r@ == vadd(self@, o@),
    {
        Vec3 { x: self.x + o.x, y: self.y + o.y, z: self.z + o.z }
    }

    /// Componentwise fixed-point scaling by `k`.
    pub fn scale_fp(&self, k: i64) -> (r: Vec3)
        requires
            self.x != i64::MIN,
            self.y != i64::MIN,
            self.z != i64::MIN,
            k != i64::MIN,
            fits(mul_fp(self.x as int, k as int)),
            fits(mul_fp(self.y as int, k as int)),
            fits(mul_fp(self.z as int, k as int)),
        ensures
            r@ == vscale_fp(self@, k as int),
    {
        Vec3 {
            x: crate::fixed::fp_mul(self.x, k),
            y: crate::fixed::fp_mul(self.y, k),
            z: crate::fixed::fp_mul(self.z, k),
        }
    }
}

} // verus!
