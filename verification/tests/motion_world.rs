use tank_sim::camera::camera_track;
use tank_sim::motion::{AiTank, MotionSample};
use tank_sim::pose::{Pose, Yaw};
use tank_sim::vec3::Vec3;
use tank_sim::world::{agents_tick, initial_agents, World};

/// Half a second, in fixed-point seconds.
const DT_HALF: i64 = 500_000;

#[test]
fn step_moves_along_heading_and_snaps_yaw() {
    let mut tank = AiTank { id: 7, pose: Pose::origin() };
    // Heading straight along +x (sin 1, cos 0), noise 0.
    let s = MotionSample { noise: 0, dir_sin: 1_000_000, dir_cos: 0 };
    tank.step(&s, DT_HALF);
    // Speed 5 for half a second: 2.5 units along +x, none vertically.
    assert_eq!(tank.pose.pos, Vec3::new(2_500_000, 0, 0));
    assert_eq!(tank.pose.yaw, Yaw { angle: 6_283_185, sin: 1_000_000, cos: 0 });
    assert_eq!(tank.id, 7);
}

#[test]
fn step_keeps_agents_on_the_ground() {
    let mut tank = AiTank { id: 2, pose: Pose::origin() };
    tank.pose.pos.y = 123;
    let s = MotionSample { noise: 400_000, dir_sin: -600_000, dir_cos: 800_000 };
    let mut n: u32 = 0;
    while n < 50 {
        tank.step(&s, DT_HALF);
        assert_eq!(tank.pose.pos.y, 123);
        n += 1;
    }
}

#[test]
fn rotations_preserve_world_up() {
    // Orientation purity: a yaw built by the motion system never tilts the
    // world-up direction.
    let up = Vec3::new(0, 1_000_000, 0);
    let yaws = vec![
        Yaw { angle: 0, sin: 0, cos: 1_000_000 },
        Yaw { angle: 6_283_185, sin: 1_000_000, cos: 0 },
        Yaw { angle: -314_159, sin: -308_866, cos: 951_106 },
        Yaw { angle: 2_094_395, sin: 866_025, cos: -500_000 },
    ];
    for y in &yaws {
        assert_eq!(y.rotate(&up), up);
    }
}

#[test]
fn setup_assigns_contiguous_ids() {
    let tanks = initial_agents(19);
    assert_eq!(tanks.len(), 19);
    for (i, t) in tanks.iter().enumerate() {
        assert_eq!(t.id, i as u32 + 1);
        assert_eq!(t.pose.pos, Vec3::new(0, 0, 0));
    }
}

#[test]
fn one_shot_per_agent_per_tick() {
    // Over every tick, exactly one projectile is fired per live agent.
    let mut tanks = initial_agents(5);
    let mut total: usize = 0;
    let mut tick: u32 = 0;
    while tick < 8 {
        let samples = vec![MotionSample { noise: 0, dir_sin: 600_000, dir_cos: 800_000 }; 5];
        let spawned = agents_tick(&mut tanks, &samples, DT_HALF);
        assert_eq!(spawned.len(), 5);
        assert_eq!(tanks.len(), 5);
        total += spawned.len();
        tick += 1;
    }
    assert_eq!(total, 40);
}

#[test]
fn world_tick_runs_the_whole_pipeline() {
    let mut world = World {
        tanks: initial_agents(3),
        projectiles: Vec::new(),
        player: Pose::origin(),
        camera: camera_track(&Pose::origin()),
    };
    let samples = vec![MotionSample { noise: 0, dir_sin: 0, dir_cos: 1_000_000 }; 3];
    // First tick: nothing to integrate, three fresh shots join the world.
    world.tick(&samples, DT_HALF);
    assert_eq!(world.projectiles.len(), 3);
    // Second tick: the three survive integration (they are fast), and
    // three more are fired.
    world.tick(&samples, DT_HALF);
    assert_eq!(world.projectiles.len(), 6);
    // The player was never touched; the camera tracks it.
    assert_eq!(world.player, Pose::origin());
    assert_eq!(world.camera.pos, Vec3::new(0, 5_000_000, -10_000_000));
}
