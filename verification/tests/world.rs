use sim_core::camera::{camera_follow_system, setup};
use sim_core::components::{
    Enemy, EnemyBundle, GameState, Health, Player, PlayerBundle, Score, Speed, Transform,
    Velocity,
};
use sim_core::math::Vec3;
use sim_core::registry::{SingleMatch, World};
use sim_core::states::{startup_system, KeySet, player_movement_system};

fn player_at(x: i64, y: i64, z: i64) -> PlayerBundle {
    PlayerBundle {
        marker: Player { name: "Alice".to_string() },
        health: Health { current: 100, max: 100 },
        score: Score { value: 0 },
        transform: Transform { translation: Vec3 { x, y, z } },
        velocity: Velocity(Vec3 { x: 0, y: 0, z: 0 }),
        speed: Speed { current: 2_000_000, max: 2_000_000 },
    }
}

#[test]
fn bootstrap_spawns_starting_roster() {
    let mut world = World::new();
    let mut game_state = GameState::default();
    let rules = startup_system(&mut world, &mut game_state);
    assert_eq!(rules.winning_score, 4);
    assert_eq!(rules.max_rounds, 10);
    assert_eq!(rules.max_players, 4);
    assert_eq!(game_state.total_players, 1);
    assert_eq!(game_state.current_round, 0);
    assert!(game_state.winning_player.is_none());
    assert_eq!(world.entity_count(), 2);
    let n_players = world.players.iter().filter(|p| p.is_some()).count();
    let n_enemies = world.enemies.iter().filter(|e| e.is_some()).count();
    assert_eq!(n_players, 1);
    assert_eq!(n_enemies, 1);
    assert_eq!(world.players[0].as_ref().unwrap().name, "Alice");
    assert_eq!(world.enemies[1].as_ref().unwrap().name, "Bad guy");
    assert_eq!(world.healths[0], Some(Health { current: 100, max: 100 }));
    assert_eq!(world.healths[1], Some(Health { current: 100, max: 100 }));
    assert_eq!(world.scores[0], Some(Score { value: 0 }));
    assert_eq!(world.speeds[0], Some(Speed { current: 2_000_000, max: 2_000_000 }));
    assert_eq!(world.velocities[0], Some(Velocity(Vec3 { x: 0, y: 0, z: 0 })));
    let t = world.transforms[0].unwrap().translation;
    assert_eq!((t.x, t.y, t.z), (1_500_000, 500_000, 1_500_000));
}

#[test]
fn default_game_state_is_empty() {
    let s = GameState::default();
    assert_eq!(s.current_round, 0);
    assert_eq!(s.total_players, 0);
    assert!(s.winning_player.is_none());
}

#[test]
fn camera_setup_places_viewpoint() {
    let mut world = World::new();
    setup(&mut world);
    assert_eq!(world.entity_count(), 1);
    assert!(world.cameras[0]);
    let t = world.transforms[0].unwrap().translation;
    assert_eq!((t.x, t.y, t.z), (5_000_000, 12_000_000, 16_000_000));
}

#[test]
fn viewpoint_tracking_copies_ground_plane_coordinates() {
    let mut world = World::new();
    // Player at (3, 0.5, 7); viewpoint previously at (5, 12, 16).
    world.spawn_player(player_at(3_000_000, 500_000, 7_000_000));
    world.spawn_camera(Transform { translation: Vec3 { x: 5_000_000, y: 12_000_000, z: 16_000_000 } });
    camera_follow_system(&mut world);
    let c = world.transforms[1].unwrap().translation;
    assert_eq!((c.x, c.y, c.z), (3_000_000, 12_000_000, 7_000_000));
    let p = world.transforms[0].unwrap().translation;
    assert_eq!((p.x, p.y, p.z), (3_000_000, 500_000, 7_000_000));
}

#[test]
fn duplicate_viewpoint_skips_tracking_without_error() {
    let mut world = World::new();
    world.spawn_player(player_at(3_000_000, 500_000, 7_000_000));
    let first = Transform { translation: Vec3 { x: 5_000_000, y: 12_000_000, z: 16_000_000 } };
    let second = Transform { translation: Vec3 { x: -1_000_000, y: 2_000_000, z: 0 } };
    world.spawn_camera(first);
    world.spawn_camera(second);
    camera_follow_system(&mut world);
    assert_eq!(world.transforms[1], Some(first));
    assert_eq!(world.transforms[2], Some(second));
}

#[test]
fn absent_viewpoint_or_player_skips_tracking_without_error() {
    let mut world = World::new();
    world.spawn_player(player_at(3_000_000, 500_000, 7_000_000));
    camera_follow_system(&mut world);
    let p = world.transforms[0].unwrap().translation;
    assert_eq!((p.x, p.y, p.z), (3_000_000, 500_000, 7_000_000));

    let mut world = World::new();
    let cam = Transform { translation: Vec3 { x: 5_000_000, y: 12_000_000, z: 16_000_000 } };
    world.spawn_camera(cam);
    camera_follow_system(&mut world);
    assert_eq!(world.transforms[0], Some(cam));
}

#[test]
fn singleton_query_reports_zero_one_many() {
    let mut world = World::new();
    assert!(matches!(world.single_camera(), SingleMatch::Zero));
    world.spawn_camera(Transform { translation: Vec3 { x: 0, y: 0, z: 0 } });
    assert!(matches!(world.single_camera(), SingleMatch::One(0)));
    world.spawn_camera(Transform { translation: Vec3 { x: 1, y: 1, z: 1 } });
    assert!(matches!(world.single_camera(), SingleMatch::Many));
    assert!(matches!(world.single_tracked_player(), SingleMatch::Zero));
    world.spawn_player(player_at(0, 0, 0));
    assert!(matches!(world.single_tracked_player(), SingleMatch::One(2)));
}

#[test]
fn enemy_batch_spawns_in_order() {
    let mut world = World::new();
    let batch = vec![
        EnemyBundle {
            marker: Enemy { name: "first".to_string() },
            health: Health { current: 10, max: 20 },
        },
        EnemyBundle {
            marker: Enemy { name: "second".to_string() },
            health: Health { current: 30, max: 40 },
        },
    ];
    world.spawn_enemy_batch(batch);
    assert_eq!(world.entity_count(), 2);
    assert_eq!(world.enemies[0].as_ref().unwrap().name, "first");
    assert_eq!(world.enemies[1].as_ref().unwrap().name, "second");
    assert_eq!(world.healths[0], Some(Health { current: 10, max: 20 }));
    assert_eq!(world.healths[1], Some(Health { current: 30, max: 40 }));
    assert!(world.players[0].is_none());
    assert!(world.scores[1].is_none());
}

#[test]
fn full_frame_pipeline_moves_player_and_viewpoint_together() {
    let mut world = World::new();
    let mut game_state = GameState::default();
    let _rules = startup_system(&mut world, &mut game_state);
    setup(&mut world);
    let keys = KeySet { forward: true, back: false, left: false, right: false };
    player_movement_system(&mut world, keys, 500_000);
    camera_follow_system(&mut world);
    let p = world.transforms[0].unwrap().translation;
    let c = world.transforms[2].unwrap().translation;
    assert_eq!((p.x, p.y, p.z), (792_893, 500_000, 792_893));
    assert_eq!((c.x, c.y, c.z), (792_893, 12_000_000, 792_893));
}
