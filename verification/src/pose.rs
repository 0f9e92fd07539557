//! Orientations and poses.
//!
//! The motion system only ever rotates about the world's vertical axis, so an
//! orientation is a yaw: the heading angle together with the fixed-point sine
//! and cosine of that angle. The trigonometric pair is supplied by the
//! platform (the library cannot compute transcendentals); the library checks
//! only that it is bounded like a unit pair and keeps every orientation a
//! pure yaw.

use vstd::prelude::*;
use crate::fixed::{abs_sp, fits, mul_fp, SCALE};
use crate::vec3::{vbounded, V3, Vec3};

verus! {

/// Largest coordinate magnitude a rotation accepts.
pub const ROT_LIMIT: i64 = 2_000_000_000_000_000_000;

/// Mathematical model of a yaw orientation.
pub ghost struct YawV {
    /// The heading angle, in fixed-point radians (unwrapped).
    pub angle: int,
    /// Fixed-point sine of the angle.
    pub sin: int,
    /// Fixed-point cosine of the angle.
    pub cos: int,
}

/// A rotation about the world's vertical axis.
#[derive(Clone, Copy, Debug, PartialEq, Eq, Structural)]
pub struct Yaw {
    pub angle: i64,
    pub sin: i64,
    pub cos: i64,
}

impl View for Yaw {
    type V = YawV;

    open spec fn view(&self) -> YawV {
        YawV { angle: self.angle as int, sin: self.sin as int, cos: self.cos as int }
    }
}

/// The trigonometric pair is bounded like the sine and cosine of a real
/// angle.
pub open spec fn yaw_wf(y: YawV) -> bool {
    abs_sp(y.sin) <= SCALE && abs_sp(y.cos) <= SCALE
}

/// The identity orientation: heading zero, facing along positive `z`.
pub open spec fn identity_yaw() -> YawV {
    YawV { angle: 0, sin: 0, cos: SCALE as int }
}

/// A yaw applied to a vector: rotation about the vertical axis by the
/// orientation's angle. The vertical component passes through unchanged.
pub open spec fn rot_spec(y: YawV, v: V3) -> V3 {
    V3 {
        x: mul_fp(y.cos, v.x) + mul_fp(y.sin, v.z),
        y: v.y,
        z: mul_fp(y.cos, v.z) - mul_fp(y.sin, v.x),
    }
}

/// The world's up direction (unit length).
pub open spec fn up() -> V3 {
    V3 { x: 0, y: SCALE as int, z: 0 }
}

/// Orientation purity: every yaw maps the world-up direction to itself, so
/// no orientation built by this library carries pitch or roll.
pub proof fn lemma_yaw_preserves_up(y: YawV)
    ensures
        rot_spec(y, up()) == up(),
{
    vstd::arithmetic::div_mod::lemma_div_of0(SCALE as int);
}

impl Yaw {
    pub open spec fn wf(&self) -> bool {
        yaw_wf(self@)
    }

    pub fn identity() -> (r: Yaw)
        ensures
            r@ == identity_yaw(),
            r.wf(),
    {
        Yaw { angle: 0, sin: 0, cos: SCALE }
    }

    /// Rotate `v` about the vertical axis by this orientation.
    pub fn rotate(&self, v: &Vec3) -> (r: Vec3)
        requires
            self.wf(),
            vbounded(v@, ROT_LIMIT as int),
        ensures
            r@ == rot_spec(self@, v@),
    {
        proof {
            crate::fixed::lemma_mul_fp_bound(self.cos as int, v.x as int, SCALE as int, ROT_LIMIT as int);
            crate::fixed::lemma_mul_fp_bound(self.cos as int, v.z as int, SCALE as int, ROT_LIMIT as int);
            crate::fixed::lemma_mul_fp_bound(self.sin as int, v.x as int, SCALE as int, ROT_LIMIT as int);
            crate::fixed::lemma_mul_fp_bound(self.sin as int, v.z as int, SCALE as int, ROT_LIMIT as int);
        }
        let cx = crate::fixed::fp_mul(self.cos, v.x);
        let cz = crate::fixed::fp_mul(self.cos, v.z);
        let sx = crate::fixed::fp_mul(self.sin, v.x);
        let sz = crate::fixed::fp_mul(self.sin, v.z);
        Vec3 { x: cx + sz, y: v.y, z: cz - sx }
    }
}

/// Mathematical model of a pose.
pub ghost struct PoseV {
    pub pos: V3,
    pub yaw: YawV,
}

/// A placement in space: position plus orientation.
#[derive(Clone, Copy, Debug, PartialEq, Eq, Structural)]
pub struct Pose {
    pub pos: Vec3,
    pub yaw: Yaw,
}

impl View for Pose {
    type V = PoseV;

    open spec fn view(&self) -> PoseV {
        PoseV { pos: self.pos@, yaw: self.yaw@ }
    }
}

impl Pose {
    /// A pose at the world origin with the identity orientation.
    pub fn origin() -> (r: Pose)
        ensures
            r@ == (PoseV { pos: V3 { x: 0, y: 0, z: 0 }, yaw: identity_yaw() }),
            r.yaw.wf(),
    {
        Pose { pos: Vec3 { x: 0, y: 0, z: 0 }, yaw: Yaw::identity() }
    }
}

} // verus!
