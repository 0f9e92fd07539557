//! Cannonballs: spawning and ballistic integration.
//!
//! A projectile is spawned from a firing agent's pose (offset to the cannon
//! tip, launched along a fixed local direction at muzzle speed), then
//! advanced every tick: translate by velocity, bounce off the ground floor
//! with lossy damping, accelerate under gravity, and despawn once the
//! squared speed falls below a threshold. Each projectile's update is
//! self-contained, so a host may run them in parallel; removals are deferred
//! to the end of the pass, as [`projectiles_tick`] models.

use vstd::prelude::*;
use vstd::assert_seqs_equal;
use crate::fixed::{fp_mul, mul_fp, DT_LIMIT, VEL_LIMIT};
use crate::pose::{rot_spec, Pose, PoseV, Yaw, YawV, ROT_LIMIT};
use crate::vec3::{vadd, vbounded, vmag2_fp, vscale_fp, V3, Vec3};

verus! {

/// Cannon tip in the firer's local frame: up and slightly forward.
pub const MUZZLE_TIP_UP: i64 = 1_235_000;

pub const MUZZLE_TIP_FWD: i64 = 324_000;

/// Launch direction in the firer's local frame (forward and up).
pub const LAUNCH_UP: i64 = 717_000;

pub const LAUNCH_FWD: i64 = 800_000;

/// Muzzle speed: the launch direction is scaled by this.
pub const MUZZLE_SPEED: i64 = 20_000_000;

/// Ground floor height: positions are clamped up to this on a bounce.
pub const FLOOR_HEIGHT: i64 = 100_000;

/// Bounce damping factor applied to each velocity component (the vertical
/// one with its sign reversed).
pub const DAMPING: i64 = 800_000;

/// Gravitational acceleration, world units per second squared.
pub const GRAVITY: i64 = 9_820_000;

/// Despawn threshold for the fixed-point squared speed.
pub const DESPAWN_ENERGY: i64 = 100_000;

/// Mathematical model of a projectile.
pub ghost struct ProjV {
    pub pos: V3,
    pub yaw: YawV,
    pub vel: V3,
}

/// A cannonball: position, orientation frozen at spawn time, velocity.
#[derive(Clone, Copy, Debug, PartialEq, Eq, Structural)]
pub struct Projectile {
    pub pos: Vec3,
    pub yaw: Yaw,
    pub vel: Vec3,
}

impl View for Projectile {
    type V = ProjV;

    open spec fn view(&self) -> ProjV {
        ProjV { pos: self.pos@, yaw: self.yaw@, vel: self.vel@ }
    }
}

/// The cannon tip offset, in the firer's local frame.
pub open spec fn muzzle_offset() -> V3 {
    V3 { x: 0, y: MUZZLE_TIP_UP as int, z: MUZZLE_TIP_FWD as int }
}

/// The launch velocity in the firer's local frame: the fixed launch
/// direction scaled by the muzzle speed.
pub open spec fn launch_velocity() -> V3 {
    V3 {
        x: 0,
        y: mul_fp(LAUNCH_UP as int, MUZZLE_SPEED as int),
        z: mul_fp(LAUNCH_FWD as int, MUZZLE_SPEED as int),
    }
}

/// The projectile a pose fires: spawned at the rotated cannon tip, keeping
/// the firer's orientation, with the rotated launch velocity.
pub open spec fn spawn_spec(p: PoseV) -> ProjV {
    ProjV {
        pos: vadd(p.pos, rot_spec(p.yaw, muzzle_offset())),
        yaw: p.yaw,
        vel: rot_spec(p.yaw, launch_velocity()),
    }
}

/// Fire one cannonball from `pose`.
pub fn spawn_projectile(pose: &Pose) -> (p: Projectile)
    requires
        pose.yaw.wf(),
        vbounded(pose.pos@, ROT_LIMIT as int),
    ensures
        p@ == spawn_spec(pose@),
        vbounded(p.vel@, VEL_LIMIT as int),
        vbounded(p.pos@, ROT_LIMIT + 2_000_000int),
{
    proof {
        crate::fixed::lemma_mul_fp_bound(LAUNCH_UP as int, MUZZLE_SPEED as int, LAUNCH_UP as int, MUZZLE_SPEED as int);
        crate::fixed::lemma_mul_fp_bound(LAUNCH_FWD as int, MUZZLE_SPEED as int, LAUNCH_FWD as int, MUZZLE_SPEED as int);
    }
    let local_vel = Vec3::new(0, LAUNCH_UP, LAUNCH_FWD).scale_fp(MUZZLE_SPEED);
    let tip = Vec3::new(0, MUZZLE_TIP_UP, MUZZLE_TIP_FWD);
    proof {
        crate::fixed::lemma_mul_fp_bound(pose.yaw.cos as int, local_vel.x as int, 1_000_000, 20_000_000);
        crate::fixed::lemma_mul_fp_bound(pose.yaw.sin as int, local_vel.x as int, 1_000_000, 20_000_000);
        crate::fixed::lemma_mul_fp_bound(pose.yaw.cos as int, local_vel.z as int, 1_000_000, 20_000_000);
        crate::fixed::lemma_mul_fp_bound(pose.yaw.sin as int, local_vel.z as int, 1_000_000, 20_000_000);
    }
    let vel = pose.yaw.rotate(&local_vel);
    let offset = pose.yaw.rotate(&tip);
    let pos = pose.pos.add(&offset);
    Projectile { pos, yaw: pose.yaw, vel }
}

/// Position after the translation step of one tick.
pub open spec fn moved(p: ProjV, dt: int) -> V3 {
    vadd(p.pos, vscale_fp(p.vel, dt))
}

/// Whether a position has dropped below the ground floor.
pub open spec fn hits_floor(pos: V3) -> bool {
    pos.y < FLOOR_HEIGHT
}

/// A position pushed back up onto the floor.
pub open spec fn clamped_pos(pos: V3) -> V3 {
    V3 { x: pos.x, y: FLOOR_HEIGHT as int, z: pos.z }
}

/// A bounced velocity: every component damped, the vertical one reversed.
pub open spec fn bounced(v: V3) -> V3 {
    V3 {
        x: mul_fp(v.x, DAMPING as int),
        y: mul_fp(v.y, -(DAMPING as int)),
        z: mul_fp(v.z, DAMPING as int),
    }
}

/// A velocity after gravity has acted for `dt`.
pub open spec fn gravity_applied(v: V3, dt: int) -> V3 {
    V3 { x: v.x, y: v.y - mul_fp(GRAVITY as int, dt), z: v.z }
}

/// One full integrator tick: translate, bounce if below the floor, then
/// apply gravity unconditionally. The orientation is frozen.
pub open spec fn stepped_proj(p: ProjV, dt: int) -> ProjV {
    let pos1 = moved(p, dt);
    if hits_floor(pos1) {
        ProjV { pos: clamped_pos(pos1), yaw: p.yaw, vel: gravity_applied(bounced(p.vel), dt) }
    } else {
        ProjV { pos: pos1, yaw: p.yaw, vel: gravity_applied(p.vel, dt) }
    }
}

/// Whether a projectile with velocity `v` is despawned: its fixed-point
/// squared speed has dropped below the threshold. (The comparison is on the
/// squared magnitude; no square root is ever taken.)
pub open spec fn despawns(v: V3) -> bool {
    vmag2_fp(v) < DESPAWN_ENERGY
}

impl Projectile {
    /// Advance this projectile by one tick. Returns whether it should now
    /// despawn, judged on the post-update velocity.
    pub fn integrate(&mut self, dt: i64) -> (despawn: bool)
        requires
            vbounded(old(self).pos@, 2 * ROT_LIMIT as int),
            vbounded(old(self).vel@, VEL_LIMIT as int),
            0 <= dt <= DT_LIMIT,
        ensures
            final(self)@ == stepped_proj(old(self)@, dt as int),
            final(self).yaw == old(self).yaw,
            final(self).pos.y >= FLOOR_HEIGHT,
            despawn == despawns(final(self)@.vel),
    {
        proof {
            crate::fixed::lemma_mul_fp_bound(self.vel.x as int, dt as int, VEL_LIMIT as int, DT_LIMIT as int);
            crate::fixed::lemma_mul_fp_bound(self.vel.y as int, dt as int, VEL_LIMIT as int, DT_LIMIT as int);
            crate::fixed::lemma_mul_fp_bound(self.vel.z as int, dt as int, VEL_LIMIT as int, DT_LIMIT as int);
        }
        let disp = self.vel.scale_fp(dt);
        self.pos = self.pos.add(&disp);
        if self.pos.y < FLOOR_HEIGHT {
            self.pos.y = FLOOR_HEIGHT;
            proof {
                crate::fixed::lemma_mul_fp_bound(self.vel.x as int, DAMPING as int, VEL_LIMIT as int, 1_000_000);
                crate::fixed::lemma_mul_fp_bound(self.vel.y as int, -(DAMPING as int), VEL_LIMIT as int, 1_000_000);
                crate::fixed::lemma_mul_fp_bound(self.vel.z as int, DAMPING as int, VEL_LIMIT as int, 1_000_000);
            }
            self.vel = Vec3 {
                x: fp_mul(self.vel.x, DAMPING),
                y: fp_mul(self.vel.y, -DAMPING),
                z: fp_mul(self.vel.z, DAMPING),
            };
        }
        proof {
            crate::fixed::lemma_mul_fp_bound(GRAVITY as int, dt as int, GRAVITY as int, DT_LIMIT as int);
        }
        let g = fp_mul(GRAVITY, dt);
        self.vel.y = self.vel.y - g;
        proof {
            let vb = VEL_LIMIT + 10_000_000_000int;
            crate::fixed::lemma_mul_fp_bound(self.vel.x as int, self.vel.x as int, vb, vb);
            crate::fixed::lemma_mul_fp_bound(self.vel.y as int, self.vel.y as int, vb, vb);
            crate::fixed::lemma_mul_fp_bound(self.vel.z as int, self.vel.z as int, vb, vb);
        }
        let energy = fp_mul(self.vel.x, self.vel.x) + fp_mul(self.vel.y, self.vel.y) + fp_mul(
            self.vel.z,
            self.vel.z,
        );
        energy < DESPAWN_ENERGY
    }
}

/// The models of a batch of projectiles.
pub open spec fn proj_views(s: Seq<Projectile>) -> Seq<ProjV> {
    s.map_values(|p: Projectile| p@)
}

/// The surviving projectiles after one whole integrator pass, in order:
/// each is advanced one tick, and those whose post-update squared speed
/// fell below the threshold are dropped.
pub open spec fn ticked(s: Seq<ProjV>, dt: int) -> Seq<ProjV>
    decreases s.len(),
{
    if s.len() == 0 {
        Seq::empty()
    } else {
        let rest = ticked(s.drop_last(), dt);
        let sp = stepped_proj(s.last(), dt);
        if despawns(sp.vel) {
            rest
        } else {
            rest.push(sp)
        }
    }
}

/// One whole integrator pass over every projectile. Despawns are deferred:
/// the batch is only restructured after every projectile has been updated,
/// as a parallel host must also do.
pub fn projectiles_tick(ps: &mut Vec<Projectile>, dt: i64)
    requires
        forall|i: int|
            0 <= i < old(ps)@.len() ==> vbounded(
                (#[trigger] old(ps)@[i]).pos@,
                2 * ROT_LIMIT as int,
            ),
        forall|i: int|
            0 <= i < old(ps)@.len() ==> vbounded((#[trigger] old(ps)@[i]).vel@, VEL_LIMIT as int),
        0 <= dt <= DT_LIMIT,
    ensures
        proj_views(final(ps)@) == ticked(proj_views(old(ps)@), dt as int),
        forall|i: int| 0 <= i < final(ps)@.len() ==> (#[trigger] final(ps)@[i]).pos.y >= FLOOR_HEIGHT,
{
    let ghost orig = ps@;
    let n = ps.len();
    let mut kept: Vec<Projectile> = Vec::new();
    let mut i: usize = 0;
    while i < n
        invariant
            n == orig.len(),
            ps@ == orig,
            0 <= i <= n,
            0 <= dt <= DT_LIMIT,
            forall|j: int|
                0 <= j < orig.len() ==> vbounded((#[trigger] orig[j]).pos@, 2 * ROT_LIMIT as int),
            forall|j: int| 0 <= j < orig.len() ==> vbounded((#[trigger] orig[j]).vel@, VEL_LIMIT as int),
            proj_views(kept@) == ticked(proj_views(orig.take(i as int)), dt as int),
            forall|j: int| 0 <= j < kept@.len() ==> (#[trigger] kept@[j]).pos.y >= FLOOR_HEIGHT,
        decreases n - i,
    {
        let mut p = ps[i];
        let despawn = p.integrate(dt);
        let ghost kept_before = kept@;
        if !despawn {
            kept.push(p);
        }
        proof {
            let pre = proj_views(orig.take(i as int));
            let cur = proj_views(orig.take(i as int + 1));
            assert_seqs_equal!(cur.drop_last() == pre);
            assert(cur.last() == orig[i as int]@);
            assert(ticked(cur, dt as int) == if despawns(stepped_proj(orig[i as int]@, dt as int).vel) {
                ticked(pre, dt as int)
            } else {
                ticked(pre, dt as int).push(stepped_proj(orig[i as int]@, dt as int))
            });
            if !despawn {
                assert_seqs_equal!(proj_views(kept_before.push(p)) == proj_views(kept_before).push(p@));
            }
        }
        i = i + 1;
    }
    proof {
        assert(orig.take(n as int) == orig) by {
            assert_seqs_equal!(orig.take(n as int) == orig);
        }
    }
    *ps = kept;
}

} // verus!
