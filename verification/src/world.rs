//! The simulation world and its per-tick pipeline.
//!
//! A tick runs three passes in order: every agent moves and fires once,
//! every existing projectile is integrated (with despawns deferred to the
//! end of the pass), then the freshly fired projectiles join the world so
//! the next tick integrates them, and the camera is re-derived from the
//! player's pose. The player's pose itself is externally driven and never
//! mutated here.

use vstd::prelude::*;
use vstd::assert_seqs_equal;
use crate::camera::{camera_spec, camera_track, CameraState};
use crate::fixed::{DT_LIMIT, POS_LIMIT, VEL_LIMIT};
use crate::motion::{stepped_pose, AiTank, MotionSample, STEP_REACH};
use crate::pose::{identity_yaw, Pose, PoseV, ROT_LIMIT};
use crate::projectile::{proj_views, spawn_projectile, spawn_spec, ticked, Projectile, ProjV};
use crate::vec3::{vbounded, V3};

verus! {

/// The agents created at world setup: ids in a contiguous range starting at
/// one (zero is the player's), all at the world origin with the identity
/// orientation.
pub fn initial_agents(count: u32) -> (tanks: Vec<AiTank>)
    ensures
        tanks@.len() == count,
        forall|i: int| 0 <= i < count ==> (#[trigger] tanks@[i]).id == i + 1,
        forall|i: int|
            0 <= i < count ==> (#[trigger] tanks@[i]).pose@ == (PoseV {
                pos: V3 { x: 0, y: 0, z: 0 },
                yaw: identity_yaw(),
            }),
{
    let mut tanks: Vec<AiTank> = Vec::new();
    let mut k: u32 = 0;
    while k < count
        invariant
            0 <= k <= count,
            tanks@.len() == k,
            forall|i: int| 0 <= i < k ==> (#[trigger] tanks@[i]).id == i + 1,
            forall|i: int|
                0 <= i < k ==> (#[trigger] tanks@[i]).pose@ == (PoseV {
                    pos: V3 { x: 0, y: 0, z: 0 },
                    yaw: identity_yaw(),
                }),
        decreases count - k,
    {
        tanks.push(AiTank { id: k + 1, pose: Pose::origin() });
        k = k + 1;
    }
    tanks
}

/// The models of the projectiles a batch of agents fires after stepping:
/// one per agent, in agent order.
pub open spec fn spawned_views(tanks: Seq<AiTank>, samples: Seq<MotionSample>, dt: int) -> Seq<
    ProjV,
> {
    Seq::new(tanks.len(), |i: int| spawn_spec(stepped_pose(tanks[i].pose@, samples[i], dt)))
}

/// One motion pass: step every agent by its sample, and fire exactly one
/// cannonball per agent from its new pose. Returns the fired projectiles in
/// agent order; ids are preserved and no agent is created or destroyed.
pub fn agents_tick(tanks: &mut Vec<AiTank>, samples: &Vec<MotionSample>, dt: i64) -> (spawned: Vec<
    Projectile,
>)
    requires
        samples@.len() == old(tanks)@.len(),
        forall|i: int| 0 <= i < old(tanks)@.len() ==> (#[trigger] samples@[i]).wf(),
        forall|i: int|
            0 <= i < old(tanks)@.len() ==> vbounded(
                (#[trigger] old(tanks)@[i]).pose.pos@,
                POS_LIMIT as int,
            ),
        0 <= dt <= DT_LIMIT,
    ensures
        final(tanks)@.len() == old(tanks)@.len(),
        spawned@.len() == old(tanks)@.len(),
        forall|i: int|
            0 <= i < old(tanks)@.len() ==> (#[trigger] final(tanks)@[i]).id == old(tanks)@[i].id,
        forall|i: int|
            0 <= i < old(tanks)@.len() ==> (#[trigger] final(tanks)@[i]).pose@ == stepped_pose(
                old(tanks)@[i].pose@,
                samples@[i],
                dt as int,
            ),
        proj_views(spawned@) == spawned_views(old(tanks)@, samples@, dt as int),
        forall|i: int|
            0 <= i < old(tanks)@.len() ==> vbounded(
                (#[trigger] final(tanks)@[i]).pose.pos@,
                POS_LIMIT + STEP_REACH as int,
            ),
        forall|i: int|
            0 <= i < old(tanks)@.len() ==> vbounded((#[trigger] spawned@[i]).vel@, VEL_LIMIT as int),
        forall|i: int|
            0 <= i < old(tanks)@.len() ==> vbounded(
                (#[trigger] spawned@[i]).pos@,
                ROT_LIMIT + 2_000_000int,
            ),
{
    let ghost orig = tanks@;
    let n = tanks.len();
    let mut stepped: Vec<AiTank> = Vec::new();
    let mut spawned: Vec<Projectile> = Vec::new();
    let mut i: usize = 0;
    while i < n
        invariant
            n == orig.len(),
            tanks@ == orig,
            samples@.len() == orig.len(),
            0 <= i <= n,
            0 <= dt <= DT_LIMIT,
            forall|j: int| 0 <= j < orig.len() ==> (#[trigger] samples@[j]).wf(),
            forall|j: int|
                0 <= j < orig.len() ==> vbounded((#[trigger] orig[j]).pose.pos@, POS_LIMIT as int),
            stepped@.len() == i,
            spawned@.len() == i,
            forall|j: int| 0 <= j < i ==> (#[trigger] stepped@[j]).id == orig[j].id,
            forall|j: int|
                0 <= j < i ==> (#[trigger] stepped@[j]).pose@ == stepped_pose(
                    orig[j].pose@,
                    samples@[j],
                    dt as int,
                ),
            forall|j: int|
                0 <= j < i ==> (#[trigger] spawned@[j])@ == spawn_spec(
                    stepped_pose(orig[j].pose@, samples@[j], dt as int),
                ),
            forall|j: int|
                0 <= j < i ==> vbounded(
                    (#[trigger] stepped@[j]).pose.pos@,
                    POS_LIMIT + STEP_REACH as int,
                ),
            forall|j: int| 0 <= j < i ==> vbounded((#[trigger] spawned@[j]).vel@, VEL_LIMIT as int),
            forall|j: int|
                0 <= j < i ==> vbounded((#[trigger] spawned@[j]).pos@, ROT_LIMIT + 2_000_000int),
        decreases n - i,
    {
        let mut t = tanks[i];
        t.step(&samples[i], dt);
        let shot = spawn_projectile(&t.pose);
        stepped.push(t);
        spawned.push(shot);
        i = i + 1;
    }
    proof {
        assert_seqs_equal!(proj_views(spawned@) == spawned_views(orig, samples@, dt as int));
    }
    *tanks = stepped;
    spawned
}

/// The whole simulation state the per-tick pipeline touches.
pub struct World {
    /// The autonomous agents.
    pub tanks: Vec<AiTank>,
    /// Every live cannonball.
    pub projectiles: Vec<Projectile>,
    /// The player's pose, driven from outside the library.
    pub player: Pose,
    /// The camera state derived on the most recent tick.
    pub camera: CameraState,
}

impl World {
    /// Every stored pose and velocity is within the machine limits the
    /// per-tick arithmetic needs.
    pub open spec fn wf(&self) -> bool {
        &&& forall|i: int|
            0 <= i < self.tanks@.len() ==> vbounded(
                (#[trigger] self.tanks@[i]).pose.pos@,
                POS_LIMIT as int,
            )
        &&& forall|i: int|
            0 <= i < self.projectiles@.len() ==> vbounded(
                (#[trigger] self.projectiles@[i]).pos@,
                2 * ROT_LIMIT as int,
            )
        &&& forall|i: int|
            0 <= i < self.projectiles@.len() ==> vbounded(
                (#[trigger] self.projectiles@[i]).vel@,
                VEL_LIMIT as int,
            )
        &&& self.player.yaw.wf()
        &&& vbounded(self.player.pos@, ROT_LIMIT as int)
    }

    /// One full tick: agents move and each fires once; existing projectiles
    /// are integrated and the despawned ones removed; the fresh shots join
    /// the world for the next tick; the camera is re-derived from the
    /// player. The player's pose is not touched.
    pub fn tick(&mut self, samples: &Vec<MotionSample>, dt: i64)
        requires
            old(self).wf(),
            samples@.len() == old(self).tanks@.len(),
            forall|i: int| 0 <= i < samples@.len() ==> (#[trigger] samples@[i]).wf(),
            0 <= dt <= DT_LIMIT,
        ensures
            final(self).tanks@.len() == old(self).tanks@.len(),
            forall|i: int|
                0 <= i < old(self).tanks@.len() ==> (#[trigger] final(self).tanks@[i]).id == old(
                    self,
                ).tanks@[i].id,
            forall|i: int|
                0 <= i < old(self).tanks@.len() ==> (#[trigger] final(self).tanks@[i]).pose@
                    == stepped_pose(old(self).tanks@[i].pose@, samples@[i], dt as int),
            proj_views(final(self).projectiles@) == ticked(
                proj_views(old(self).projectiles@),
                dt as int,
            ) + spawned_views(old(self).tanks@, samples@, dt as int),
            final(self).player == old(self).player,
            final(self).camera@ == camera_spec(old(self).player@),
    {
        let spawned = agents_tick(&mut self.tanks, samples, dt);
        crate::projectile::projectiles_tick(&mut self.projectiles, dt);
        let ghost stepped = self.tanks@;
        let ghost integrated = self.projectiles@;
        let mut k: usize = 0;
        let ns = spawned.len();
        while k < ns
            invariant
                ns == spawned.len(),
                0 <= k <= ns,
                self.projectiles@ == integrated + spawned@.take(k as int),
                self.tanks@ == stepped,
                self.player == old(self).player,
                old(self).player.yaw.wf(),
                vbounded(old(self).player.pos@, ROT_LIMIT as int),
            decreases ns - k,
        {
            self.projectiles.push(spawned[k]);
            proof {
                assert_seqs_equal!(
                    integrated + spawned@.take(k as int + 1)
                        == (integrated + spawned@.take(k as int)).push(spawned@[k as int]));
            }
            k = k + 1;
        }
        proof {
            assert_seqs_equal!(spawned@.take(ns as int) == spawned@);
            assert_seqs_equal!(
                proj_views(integrated + spawned@)
                    == proj_views(integrated) + proj_views(spawned@));
        }
        self.camera = camera_track(&self.player);
    }
}

} // verus!
