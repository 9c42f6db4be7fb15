use sim_core::components::{Health, Player, PlayerBundle, Score, Speed, Transform, Velocity};
use sim_core::math::{Vec3, INV_SQRT2, SCALE};
use sim_core::registry::World;
use sim_core::states::{player_movement_system, raw_direction, normalize_direction, KeySet};

fn keys(forward: bool, back: bool, left: bool, right: bool) -> KeySet {
    KeySet { forward, back, left, right }
}

fn player_at(x: i64, y: i64, z: i64, speed: i64) -> PlayerBundle {
    PlayerBundle {
        marker: Player { name: "Alice".to_string() },
        health: Health { current: 100, max: 100 },
        score: Score { value: 0 },
        transform: Transform { translation: Vec3 { x, y, z } },
        velocity: Velocity(Vec3 { x: 0, y: 0, z: 0 }),
        speed: Speed { current: speed, max: speed },
    }
}

#[test]
fn raw_sum_of_all_sixteen_key_combinations() {
    for bits in 0u32..16 {
        let f = bits & 1 != 0;
        let b = bits & 2 != 0;
        let l = bits & 4 != 0;
        let r = bits & 8 != 0;
        let v = raw_direction(keys(f, b, l, r));
        let mut ex: i64 = 0;
        let mut ez: i64 = 0;
        if f {
            ex += -1;
            ez += -1;
        }
        if b {
            ex += 1;
            ez += 1;
        }
        if l {
            ex += -1;
            ez += 1;
        }
        if r {
            ex += 1;
            ez += -1;
        }
        assert_eq!(v.x, ex);
        assert_eq!(v.y, 0);
        assert_eq!(v.z, ez);
    }
}

#[test]
fn opposing_keys_cancel() {
    let v = raw_direction(keys(true, true, false, false));
    assert_eq!((v.x, v.y, v.z), (0, 0, 0));
    let v = raw_direction(keys(true, true, true, true));
    assert_eq!((v.x, v.y, v.z), (0, 0, 0));
    // Three keys collapse to the one left over after the opposing pair cancels.
    let three = raw_direction(keys(true, true, true, false));
    let left_only = raw_direction(keys(false, false, true, false));
    assert_eq!((three.x, three.z), (left_only.x, left_only.z));
}

#[test]
fn normalized_direction_has_unit_length_within_tolerance() {
    let unit_sq = SCALE * SCALE;
    for bits in 1u32..16 {
        let f = bits & 1 != 0;
        let b = bits & 2 != 0;
        let l = bits & 4 != 0;
        let r = bits & 8 != 0;
        let raw = raw_direction(keys(f, b, l, r));
        if raw.x == 0 && raw.z == 0 {
            continue;
        }
        let n = normalize_direction(raw);
        let len_sq = n.x * n.x + n.z * n.z;
        assert!(len_sq >= unit_sq);
        assert!(len_sq <= unit_sq + 618_898);
        let len = (len_sq as f64).sqrt() / SCALE as f64;
        assert!((len - 1.0).abs() < 1e-6);
    }
}

#[test]
fn single_key_normalizes_to_inverse_sqrt_two() {
    let n = normalize_direction(raw_direction(keys(true, false, false, false)));
    assert_eq!((n.x, n.y, n.z), (-INV_SQRT2, 0, -INV_SQRT2));
    assert_eq!(INV_SQRT2, 707_107);
}

#[test]
fn idle_keys_zero_velocity_and_leave_position() {
    let mut world = World::new();
    world.spawn_player(player_at(1_500_000, 500_000, 1_500_000, 2_000_000));
    for dt in [0i64, 1, 123_456, 1_000_000_000] {
        player_movement_system(&mut world, keys(false, false, false, false), dt);
        assert_eq!(world.velocities[0], Some(Velocity(Vec3 { x: 0, y: 0, z: 0 })));
        let t = world.transforms[0].unwrap().translation;
        assert_eq!((t.x, t.y, t.z), (1_500_000, 500_000, 1_500_000));
    }
}

#[test]
fn forward_half_second_at_speed_two_moves_by_inverse_sqrt_two() {
    let mut world = World::new();
    world.spawn_player(player_at(1_500_000, 500_000, 1_500_000, 2_000_000));
    // 0.5 s at speed 2.0 with direction (-1,0,-1)/sqrt(2): displacement
    // -0.707107 on x and z, in micro-units.
    player_movement_system(&mut world, keys(true, false, false, false), 500_000);
    let t = world.transforms[0].unwrap().translation;
    assert_eq!((t.x, t.y, t.z), (1_500_000 - 707_107, 500_000, 1_500_000 - 707_107));
    assert_eq!(world.velocities[0], Some(Velocity(Vec3 { x: -707_107, y: 0, z: -707_107 })));
    let dx = (t.x - 1_500_000) as f64 / SCALE as f64;
    assert!((dx - (-0.707)).abs() < 1e-3);
}

#[test]
fn movement_applies_to_every_matching_entity() {
    let mut world = World::new();
    world.spawn_player(player_at(0, 0, 0, 1_000_000));
    world.spawn_player(player_at(10_000_000, 0, 0, 2_000_000));
    player_movement_system(&mut world, keys(false, true, false, false), 1_000_000);
    let a = world.transforms[0].unwrap().translation;
    let b = world.transforms[1].unwrap().translation;
    assert_eq!((a.x, a.z), (707_107, 707_107));
    assert_eq!((b.x, b.z), (10_000_000 + 1_414_214, 1_414_214));
}

#[test]
fn movement_with_empty_world_does_nothing() {
    let mut world = World::new();
    player_movement_system(&mut world, keys(true, false, false, false), 500_000);
    assert_eq!(world.entity_count(), 0);
}

#[test]
fn largest_frame_time_and_speed_stay_exact() {
    let mut world = World::new();
    // Speed and frame time at the documented limits: 1000 units/s for
    // 1000 s along +x (back+right), one axis of the raw sum at 2.
    world.spawn_player(player_at(0, 0, 0, 1_000_000_000));
    let k = keys(false, true, false, true);
    let v = raw_direction(k);
    assert_eq!((v.x, v.y, v.z), (2, 0, 0));
    player_movement_system(&mut world, k, 1_000_000_000);
    let t = world.transforms[0].unwrap().translation;
    assert_eq!((t.x, t.y, t.z), (1_000_000_000_000, 0, 0));
}
