use tank_sim::pose::Pose;
use tank_sim::projectile::{projectiles_tick, spawn_projectile, Projectile, FLOOR_HEIGHT};
use tank_sim::vec3::Vec3;

/// One simulated frame at sixty frames per second, in fixed-point seconds.
const DT_60HZ: i64 = 16_667;

#[test]
fn spawn_pose_at_identity() {
    // A firer at the origin with the identity orientation spawns the ball
    // at the cannon tip (0, 1.235, 0.324) with velocity (0, 0.717, 0.8)
    // scaled by the muzzle speed 20: (0, 14.34, 16.0).
    let p = spawn_projectile(&Pose::origin());
    assert_eq!(p.pos, Vec3::new(0, 1_235_000, 324_000));
    assert_eq!(p.vel, Vec3::new(0, 14_340_000, 16_000_000));
    assert_eq!(p.yaw, Pose::origin().yaw);
}

#[test]
fn spawn_pose_turned_quarter() {
    // A firer turned ninety degrees (sin 1, cos 0) fires along +x.
    let mut pose = Pose::origin();
    pose.yaw.sin = 1_000_000;
    pose.yaw.cos = 0;
    let p = spawn_projectile(&pose);
    assert_eq!(p.pos, Vec3::new(324_000, 1_235_000, 0));
    assert_eq!(p.vel, Vec3::new(16_000_000, 14_340_000, 0));
}

#[test]
fn muzzle_shot_despawns_in_bounded_ticks() {
    // Reference trace: a ball fired from the origin at the fixed muzzle
    // speed, integrated at sixty frames per second, comes to rest and
    // despawns on tick 836 — well under the divergence bound.
    let mut p = spawn_projectile(&Pose::origin());
    let mut ticks: u64 = 0;
    loop {
        ticks += 1;
        let despawn = p.integrate(DT_60HZ);
        // Ground floor invariant: never below the clamp height.
        assert!(p.pos.y >= FLOOR_HEIGHT);
        if despawn {
            break;
        }
        assert!(ticks <= 10_000, "projectile never came to rest");
    }
    assert_eq!(ticks, 836);
}

#[test]
fn bounce_clamps_and_reverses() {
    let mut p = Projectile {
        pos: Vec3::new(0, 50_000, 0),
        yaw: Pose::origin().yaw,
        vel: Vec3::new(0, -1_000_000, 0),
    };
    let despawn = p.integrate(DT_60HZ);
    // The ball fell through the floor, so it is pushed back to exactly the
    // floor height; the fall is reversed and damped, then gravity acts.
    assert_eq!(p.pos.y, FLOOR_HEIGHT);
    assert_eq!(p.vel, Vec3::new(0, 800_000 - 163_669, 0));
    assert!(!despawn);
}

#[test]
fn gravity_acts_every_tick() {
    let mut p = Projectile {
        pos: Vec3::new(0, 10_000_000, 0),
        yaw: Pose::origin().yaw,
        vel: Vec3::new(0, 0, 16_000_000),
    };
    let despawn = p.integrate(DT_60HZ);
    assert_eq!(p.pos, Vec3::new(0, 10_000_000, 266_672));
    assert_eq!(p.vel, Vec3::new(0, -163_669, 16_000_000));
    assert!(!despawn);
}

#[test]
fn tick_defers_and_applies_despawns() {
    // A nearly resting ball despawns this tick; a fast one survives with
    // its state advanced. Survivors keep their relative order.
    let slow = Projectile {
        pos: Vec3::new(0, 10_000_000, 0),
        yaw: Pose::origin().yaw,
        vel: Vec3::new(0, 200_000, 0),
    };
    let fast = Projectile {
        pos: Vec3::new(0, 10_000_000, 0),
        yaw: Pose::origin().yaw,
        vel: Vec3::new(0, 0, 16_000_000),
    };
    let mut balls = vec![slow, fast, slow, fast];
    projectiles_tick(&mut balls, DT_60HZ);
    assert_eq!(balls.len(), 2);
    assert_eq!(balls[0].pos, Vec3::new(0, 10_000_000, 266_672));
    assert_eq!(balls[1].pos, Vec3::new(0, 10_000_000, 266_672));
    for b in &balls {
        assert!(b.pos.y >= FLOOR_HEIGHT);
    }
}
