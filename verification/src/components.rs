//! Component and resource records of the simulation core.
//!
//! Components are plain attribute records attached to one entity each;
//! resources are singleton records owned by the frame scheduler and handed
//! to each system explicitly.

use vstd::prelude::*;
use crate::math::Vec3;

verus! {

/// Top-level phase of the application.
#[derive(Clone, Debug, Default, Hash, Eq, PartialEq)]
pub enum MainState {
    #[default]
    LoadAssets,
    Game,
}

/// Marker component for the controllable player entity.
#[derive(Clone, Debug)]
pub struct Player {
    pub name: String,
}

/// Marker component for an enemy entity.
#[derive(Clone, Debug)]
pub struct Enemy {
    pub name: String,
}

/// Hit points of an entity. Intended invariant `current <= max` is not yet
/// enforced by any system here; no system mutates health today.
#[derive(Clone, Copy, Debug, PartialEq, Eq, Structural)]
pub struct Health {
    pub current: u32,
    pub max: u32,
}

/// Accumulated score of a player; no system mutates it today.
#[derive(Clone, Copy, Debug, PartialEq, Eq, Structural)]
pub struct Score {
    pub value: usize,
}

/// Scalar movement speed in micro-units per second. Intended invariant
/// `current <= max` is not yet enforced by any system here.
#[derive(Clone, Copy, Debug, PartialEq, Eq, Structural)]
pub struct Speed {
    pub current: i64,
    pub max: i64,
}

/// Per-frame movement direction of an entity, recomputed from scratch by the
/// movement system every frame; never carried over as momentum.
#[derive(Clone, Copy, Debug, PartialEq, Eq, Structural)]
pub struct Velocity(pub Vec3);

/// Spatial placement of an entity, in micro-unit coordinates. Orientation
/// and visual description live with the rendering collaborator.
#[derive(Clone, Copy, Debug, PartialEq, Eq, Structural)]
pub struct Transform {
    pub translation: Vec3,
}

/// Marker component for the viewpoint entity that the rendered view follows.
#[derive(Clone, Copy, Debug, PartialEq, Eq, Structural)]
pub struct MainCamera;

/// Everything a freshly spawned player entity carries.
pub struct PlayerBundle {
    pub marker: Player,
    pub health: Health,
    pub score: Score,
    pub transform: Transform,
    pub velocity: Velocity,
    pub speed: Speed,
}

/// Everything a freshly spawned enemy entity carries.
pub struct EnemyBundle {
    pub marker: Enemy,
    pub health: Health,
}

/// Singleton game-progress record, created before the first frame and
/// mutated in place thereafter.
pub struct GameState {
    pub current_round: usize,
    pub total_players: usize,
    pub winning_player: Option<Player>,
}

impl Default for GameState {
    /// A fresh game: round zero, no players counted, no winner.
    fn default() -> (s: GameState)
        ensures
            s.current_round == 0,
            s.total_players == 0,
            s.winning_player is None,
    {
        GameState { current_round: 0, total_players: 0, winning_player: None }
    }
}

/// Singleton rule configuration, immutable after bootstrap. The fields are
/// declared for round progression and win conditions that no system here
/// enforces yet.
#[derive(Clone, Copy, Debug, PartialEq, Eq, Structural)]
pub struct GameRules {
    pub winning_score: usize,
    pub max_rounds: usize,
    pub max_players: usize,
}

} // verus!
