use tank_sim::camera::camera_track;
use tank_sim::pose::Pose;
use tank_sim::vec3::Vec3;

#[test]
fn camera_follow_exactness() {
    // Player at the origin with the identity orientation: the camera sits
    // at exactly (0, 5, -10) and looks at exactly (0, 1, 0).
    let cam = camera_track(&Pose::origin());
    assert_eq!(cam.pos, Vec3::new(0, 5_000_000, -10_000_000));
    assert_eq!(cam.target, Vec3::new(0, 1_000_000, 0));
}

#[test]
fn camera_rig_turns_with_the_player() {
    // A player turned ninety degrees keeps the camera rigidly behind it:
    // the offset rotates into (-10, 5, 0). The look target is world-space
    // and does not rotate.
    let mut player = Pose::origin();
    player.yaw.sin = 1_000_000;
    player.yaw.cos = 0;
    player.pos = Vec3::new(2_000_000, 0, 3_000_000);
    let cam = camera_track(&player);
    assert_eq!(cam.pos, Vec3::new(2_000_000 - 10_000_000, 5_000_000, 3_000_000));
    assert_eq!(cam.target, Vec3::new(2_000_000, 1_000_000, 3_000_000));
}
