//! The chase camera.
//!
//! Each tick the camera pose is recomputed from the tracked player's pose
//! alone: a rigid offset behind and above the player in the player's own
//! frame, looking at a point slightly above the player's base. The library
//! fixes the camera position and the look target exactly; turning the pair
//! into a view rotation needs a normalization (a square root), which is the
//! renderer's task and carries no simulation state.

use vstd::prelude::*;
use crate::pose::{rot_spec, Pose, PoseV, ROT_LIMIT};
use crate::vec3::{vadd, vbounded, V3, Vec3};

verus! {

/// Camera rig offset in the player's local frame: above and behind.
pub const RIG_UP: i64 = 5_000_000;

pub const RIG_BACK: i64 = -10_000_000;

/// The look target sits this far above the player's base position.
pub const LOOK_UP: i64 = 1_000_000;

/// Mathematical model of the camera's pose.
pub ghost struct CameraV {
    pub pos: V3,
    pub target: V3,
}

/// The camera's derived state: where it stands and what it looks at. Fully
/// recomputed every tick; never accumulated.
#[derive(Clone, Copy, Debug, PartialEq, Eq, Structural)]
pub struct CameraState {
    pub pos: Vec3,
    pub target: Vec3,
}

impl View for CameraState {
    type V = CameraV;

    open spec fn view(&self) -> CameraV {
        CameraV { pos: self.pos@, target: self.target@ }
    }
}

/// The rig offset, in the player's local frame.
pub open spec fn rig_offset() -> V3 {
    V3 { x: 0, y: RIG_UP as int, z: RIG_BACK as int }
}

/// The look target's offset from the player, in world space.
pub open spec fn look_offset() -> V3 {
    V3 { x: 0, y: LOOK_UP as int, z: 0 }
}

/// The camera pose a player pose determines: position offset rigidly in the
/// player's frame, target offset straight up in world space.
pub open spec fn camera_spec(p: PoseV) -> CameraV {
    CameraV {
        pos: vadd(p.pos, rot_spec(p.yaw, rig_offset())),
        target: vadd(p.pos, look_offset()),
    }
}

/// Derive the camera state from the player's current pose.
pub fn camera_track(player: &Pose) -> (cam: CameraState)
    requires
        player.yaw.wf(),
        vbounded(player.pos@, ROT_LIMIT as int),
    ensures
        cam@ == camera_spec(player@),
{
    proof {
        crate::fixed::lemma_mul_fp_bound(player.yaw.cos as int, 0, 1_000_000, 10_000_000);
        crate::fixed::lemma_mul_fp_bound(player.yaw.sin as int, 0, 1_000_000, 10_000_000);
        crate::fixed::lemma_mul_fp_bound(player.yaw.cos as int, RIG_BACK as int, 1_000_000, 10_000_000);
        crate::fixed::lemma_mul_fp_bound(player.yaw.sin as int, RIG_BACK as int, 1_000_000, 10_000_000);
    }
    let rig = Vec3::new(0, RIG_UP, RIG_BACK);
    let pos = player.pos.add(&player.yaw.rotate(&rig));
    let target = player.pos.add(&Vec3::new(0, LOOK_UP, 0));
    CameraState { pos, target }
}

} // verus!
