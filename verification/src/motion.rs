//! Procedural motion of the autonomous tanks.
//!
//! Each tick, an agent samples a process-wide noise field at a coordinate
//! derived from its own horizontal position and id, maps the sample to a
//! heading angle, and moves along that heading at a fixed speed while
//! snapping its orientation to the heading. The noise field itself and the
//! sine/cosine of the heading are computed outside the library (they are
//! transcendental); the library fixes the sample coordinate, the heading
//! formula, and the pose update, and checks the supplied trigonometric pair
//! only for unit bounds.

use vstd::prelude::*;
use crate::fixed::{abs_sp, fp_div_pos, fp_mul, mul_fp, trunc_div, DT_LIMIT, NOISE_LIMIT, POS_LIMIT,
    SCALE};
use crate::pose::{identity_yaw, Pose, PoseV, YawV};
use crate::vec3::{vadd, vbounded, V3, Vec3};

verus! {

/// Ground speed of every agent, in world units per second.
pub const SPEED: i64 = 5_000_000;

/// The heading formula's full span: two turns (4 pi), in fixed point.
pub const FOUR_PI: i64 = 12_566_371;

/// One half, in fixed point.
pub const HALF_UNIT: i64 = 500_000;

/// Spatial frequency divisor: positions are scaled down by this plain
/// factor before sampling the noise field.
pub const FREQ_DIV: u64 = 10;

/// Farthest a single motion tick can carry an agent:
/// `SPEED * DT_LIMIT / SCALE`.
pub const STEP_REACH: i64 = 5_000_000_000;

/// The heading angle for a noise value `n`: `(1/2 + n) * 4 pi`, spanning
/// two full turns over the noise field's nominal range.
pub open spec fn heading_spec(n: int) -> int {
    mul_fp(n + HALF_UNIT, FOUR_PI as int)
}

/// Map a noise sample to its heading angle (fixed-point radians).
pub fn heading_angle(n: i64) -> (a: i64)
    requires
        abs_sp(n as int) <= NOISE_LIMIT,
    ensures
        a == heading_spec(n as int),
{
    proof {
        crate::fixed::lemma_mul_fp_bound(
            n + HALF_UNIT,
            FOUR_PI as int,
            NOISE_LIMIT + HALF_UNIT,
            FOUR_PI as int,
        );
    }
    fp_mul(n + HALF_UNIT, FOUR_PI)
}

/// The coordinate at which an agent samples the noise field: its horizontal
/// position scaled down by the spatial frequency divisor. (The agent's id
/// supplies the middle coordinate, keeping trajectories of distinct agents
/// apart; it needs no computation here.)
pub fn sample_coord(pos: &Vec3) -> (r: (i64, i64))
    requires
        pos.x != i64::MIN,
        pos.z != i64::MIN,
    ensures
        r.0 == trunc_div(pos.x as int, FREQ_DIV as int),
        r.1 == trunc_div(pos.z as int, FREQ_DIV as int),
{
    (fp_div_pos(pos.x, FREQ_DIV), fp_div_pos(pos.z, FREQ_DIV))
}

/// One tick's externally computed signal for one agent: the noise field's
/// value at the agent's sample coordinate, and the platform's sine and
/// cosine of the heading angle derived from that value by
/// [`heading_angle`].
#[derive(Clone, Copy, Debug, PartialEq, Eq, Structural)]
pub struct MotionSample {
    pub noise: i64,
    pub dir_sin: i64,
    pub dir_cos: i64,
}

impl MotionSample {
    /// The noise value is within machine limits and the trigonometric pair
    /// is bounded like a unit sine/cosine.
    pub open spec fn wf(&self) -> bool {
        abs_sp(self.noise as int) <= NOISE_LIMIT && abs_sp(self.dir_sin as int) <= SCALE
            && abs_sp(self.dir_cos as int) <= SCALE
    }
}

/// The translation one motion tick applies: the heading's horizontal unit
/// direction `(sin, 0, cos)`, scaled by the elapsed time and then by the
/// fixed ground speed. The vertical component is always zero.
pub open spec fn displacement_spec(s: MotionSample, dt: int) -> V3 {
    V3 {
        x: mul_fp(mul_fp(s.dir_sin as int, dt), SPEED as int),
        y: 0,
        z: mul_fp(mul_fp(s.dir_cos as int, dt), SPEED as int),
    }
}

/// An agent's pose after one motion tick: translated along the heading,
/// orientation snapped to the heading's yaw.
pub open spec fn stepped_pose(p: PoseV, s: MotionSample, dt: int) -> PoseV {
    PoseV {
        pos: vadd(p.pos, displacement_spec(s, dt)),
        yaw: YawV {
            angle: heading_spec(s.noise as int),
            sin: s.dir_sin as int,
            cos: s.dir_cos as int,
        },
    }
}

/// An autonomous tank: a stable id (which seeds its noise trajectory) and
/// its pose.
#[derive(Clone, Copy, Debug, PartialEq, Eq, Structural)]
pub struct AiTank {
    pub id: u32,
    pub pose: Pose,
}

impl AiTank {
    /// Advance this agent by one motion tick.
    pub fn step(&mut self, s: &MotionSample, dt: i64)
        requires
            s.wf(),
            0 <= dt <= DT_LIMIT,
            vbounded(old(self).pose.pos@, POS_LIMIT as int),
        ensures
            final(self).id == old(self).id,
            final(self).pose@ == stepped_pose(old(self).pose@, *s, dt as int),
            final(self).pose.yaw.wf(),
            final(self).pose.pos.y == old(self).pose.pos.y,
            vbounded(final(self).pose.pos@, POS_LIMIT + STEP_REACH as int),
    {
        proof {
            crate::fixed::lemma_mul_fp_bound(s.dir_sin as int, dt as int, SCALE as int, DT_LIMIT as int);
            crate::fixed::lemma_mul_fp_bound(s.dir_cos as int, dt as int, SCALE as int, DT_LIMIT as int);
            crate::fixed::lemma_mul_fp_bound(
                mul_fp(s.dir_sin as int, dt as int),
                SPEED as int,
                DT_LIMIT as int,
                SPEED as int,
            );
            crate::fixed::lemma_mul_fp_bound(
                mul_fp(s.dir_cos as int, dt as int),
                SPEED as int,
                DT_LIMIT as int,
                SPEED as int,
            );
        }
        let step_x = fp_mul(fp_mul(s.dir_sin, dt), SPEED);
        let step_z = fp_mul(fp_mul(s.dir_cos, dt), SPEED);
        let angle = heading_angle(s.noise);
        self.pose.pos.x = self.pose.pos.x + step_x;
        self.pose.pos.z = self.pose.pos.z + step_z;
        self.pose.yaw = crate::pose::Yaw { angle, sin: s.dir_sin, cos: s.dir_cos };
    }
}

/// A ghost record of one tick's inputs, for stating trajectory laws.
pub ghost struct TickInput {
    pub sample: MotionSample,
    pub dt: int,
}

/// The pose an agent reaches after a whole sequence of motion ticks.
pub open spec fn pose_after(p0: PoseV, ticks: Seq<TickInput>) -> PoseV
    decreases ticks.len(),
{
    if ticks.len() == 0 {
        p0
    } else {
        stepped_pose(pose_after(p0, ticks.drop_last()), ticks.last().sample, ticks.last().dt)
    }
}

/// Determinism: an agent's whole trajectory — every heading and every
/// position — is a function of its starting pose and the sequence of tick
/// inputs (noise values, heading trigonometry, elapsed times) alone. Two
/// runs over equal inputs agree exactly.
pub proof fn lemma_motion_deterministic(
    p1: PoseV,
    p2: PoseV,
    ticks1: Seq<TickInput>,
    ticks2: Seq<TickInput>,
)
    requires
        p1 == p2,
        ticks1 == ticks2,
    ensures
        pose_after(p1, ticks1) == pose_after(p2, ticks2),
{
}

/// Agents never fly or sink: a motion tick leaves the vertical coordinate
/// of the position unchanged, whatever the inputs.
pub proof fn lemma_motion_keeps_height(p: PoseV, s: MotionSample, dt: int)
    ensures
        stepped_pose(p, s, dt).pos.y == p.pos.y,
{
}

/// Orientation purity: after any number of motion ticks, an agent's
/// orientation is still a pure yaw — applied to the world-up direction it
/// returns world-up unchanged.
pub proof fn lemma_orientation_purity(p0: PoseV, ticks: Seq<TickInput>)
    ensures
        crate::pose::rot_spec(pose_after(p0, ticks).yaw, crate::pose::up()) == crate::pose::up(),
{
    crate::pose::lemma_yaw_preserves_up(pose_after(p0, ticks).yaw);
}

} // verus!
