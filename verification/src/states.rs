//! Per-frame movement and one-time bootstrap.
//!
//! The movement system turns the set of pressed movement keys into a raw
//! vector sum of unit-diagonal directions, normalizes a non-zero sum to unit
//! length, and advances every matching entity's position by
//! `direction * elapsed_time * speed`. The bootstrap spawns the starting
//! roster and fills the rule and progress records.

use vstd::prelude::*;
use crate::components::{
    Enemy, EnemyBundle, GameRules, GameState, Health, Player, PlayerBundle, Score, Speed,
    Transform, Velocity,
};
use crate::math::{disp, disp_exec, Vec3, DT_LIMIT, INV_SQRT2, POS_LIMIT, SCALE, SPEED_LIMIT};
use crate::registry::World;

verus! {

/// The four movement keys, each with its pressed state for one frame.
#[derive(Clone, Copy, Debug, PartialEq, Eq, Structural)]
pub struct KeySet {
    pub forward: bool,
    pub back: bool,
    pub left: bool,
    pub right: bool,
}

impl KeySet {
    /// At least one movement key is pressed.
    pub open spec fn any_pressed(self) -> bool {
        self.forward || self.back || self.left || self.right
    }

    /// No key pressed.
    pub fn released() -> (k: KeySet)
        ensures
            !k.any_pressed(),
    {
        KeySet { forward: false, back: false, left: false, right: false }
    }
}

/// The `x` component of the raw key sum, in whole units: the sum of the
/// pressed keys' unit-diagonal contributions forward `(-1,0,-1)`,
/// back `(1,0,1)`, left `(-1,0,1)` and right `(1,0,-1)`.
pub open spec fn raw_x(keys: KeySet) -> int {
    (if keys.forward { -1int } else { 0int }) + (if keys.back { 1int } else { 0int }) + (
    if keys.left { -1int } else { 0int }) + (if keys.right { 1int } else { 0int })
}

/// The `z` component of the raw key sum, in whole units.
pub open spec fn raw_z(keys: KeySet) -> int {
    (if keys.forward { -1int } else { 0int }) + (if keys.back { 1int } else { 0int }) + (
    if keys.left { 1int } else { 0int }) + (if keys.right { -1int } else { 0int })
}

/// The normalized value, in micro-units, of one component of a raw key sum.
/// The four diagonal keys only ever sum to `(0,0)`, `(±1,±1)` or a single
/// component of `±2`, so a component is normalized on its own: `±2` lies on
/// an axis and becomes `±1`, while `±1` comes from a diagonal of squared
/// length `2` and becomes `±1/sqrt(2)`.
pub open spec fn norm_comp(c: int) -> int {
    if c == 2 {
        SCALE as int
    } else if c == 1 {
        INV_SQRT2 as int
    } else if c == 0 {
        0
    } else if c == -1 {
        -(INV_SQRT2 as int)
    } else {
        -(SCALE as int)
    }
}

/// The normalized movement direction for one frame's keys, in micro-units;
/// zero when no raw movement remains.
pub open spec fn norm_vec(keys: KeySet) -> Vec3 {
    Vec3 { x: norm_comp(raw_x(keys)) as i64, y: 0, z: norm_comp(raw_z(keys)) as i64 }
}

/// Where a translation ends up after one frame under the given keys, speed
/// (micro-units per second) and elapsed time (micro-seconds).
pub open spec fn moved(t: Vec3, keys: KeySet, speed: int, dt: int) -> Vec3 {
    Vec3 {
        x: (t.x + disp(norm_comp(raw_x(keys)), speed, dt)) as i64,
        y: t.y,
        z: (t.z + disp(norm_comp(raw_z(keys)), speed, dt)) as i64,
    }
}

/// Sums the pressed keys' unit-diagonal direction vectors, in whole units.
pub fn raw_direction(keys: KeySet) -> (v: Vec3)
    ensures
        v.x == raw_x(keys),
        v.y == 0,
        v.z == raw_z(keys),
        -2 <= v.x <= 2,
        -2 <= v.z <= 2,
{
    let mut x: i64 = 0;
    let mut z: i64 = 0;
    if keys.forward {
        x = x - 1;
        z = z - 1;
    }
    if keys.back {
        x = x + 1;
        z = z + 1;
    }
    if keys.left {
        x = x - 1;
        z = z + 1;
    }
    if keys.right {
        x = x + 1;
        z = z - 1;
    }
    Vec3 { x, y: 0, z }
}

/// Normalizes one component of a raw key sum to micro-units.
fn norm_comp_exec(c: i64) -> (n: i64)
    requires
        -2 <= c <= 2,
    ensures
        n == norm_comp(c as int),
        -SCALE <= n <= SCALE,
{
    if c == 2 {
        SCALE
    } else if c == 1 {
        INV_SQRT2
    } else if c == 0 {
        0
    } else if c == -1 {
        -INV_SQRT2
    } else {
        -SCALE
    }
}

/// Normalizes a raw key sum to unit length in micro-units; the zero vector
/// stays zero.
pub fn normalize_direction(raw: Vec3) -> (v: Vec3)
    requires
        -2 <= raw.x <= 2,
        raw.y == 0,
        -2 <= raw.z <= 2,
    ensures
        v.x == norm_comp(raw.x as int),
        v.y == 0,
        v.z == norm_comp(raw.z as int),
        -SCALE <= v.x <= SCALE,
        -SCALE <= v.z <= SCALE,
{
    Vec3 { x: norm_comp_exec(raw.x), y: 0, z: norm_comp_exec(raw.z) }
}

/// The normalized direction of any non-zero raw key sum has unit length up
/// to fixed-point rounding: its squared length, in squared micro-units, is
/// within `618_898` of one squared unit (`SCALE * SCALE`, i.e. `10^12`),
/// however many keys are pressed. The direction also stays collinear with
/// the raw sum and keeps the sign of each component.
pub proof fn lemma_normalized_unit_length(keys: KeySet)
    requires
        raw_x(keys) != 0 || raw_z(keys) != 0,
    ensures
        SCALE * SCALE <= norm_comp(raw_x(keys)) * norm_comp(raw_x(keys)) + norm_comp(raw_z(keys))
            * norm_comp(raw_z(keys)) <= SCALE * SCALE + 618_898,
        norm_comp(raw_x(keys)) * raw_z(keys) == norm_comp(raw_z(keys)) * raw_x(keys),
        (norm_comp(raw_x(keys)) > 0 <==> raw_x(keys) > 0) && (norm_comp(raw_x(keys)) < 0 <==>
        raw_x(keys) < 0),
        (norm_comp(raw_z(keys)) > 0 <==> raw_z(keys) > 0) && (norm_comp(raw_z(keys)) < 0 <==>
        raw_z(keys) < 0),
{
    let x = raw_x(keys);
    let z = raw_z(keys);
    assert((x == 0 && (z == 2 || z == -2)) || (z == 0 && (x == 2 || x == -2)) || ((x == 1 || x
        == -1) && (z == 1 || z == -1)));
    assert(707_107 * 707_107 == 500_000_309_449) by (nonlinear_arith);
    assert(1_000_000 * 1_000_000 == 1_000_000_000_000) by (nonlinear_arith);
    assert(INV_SQRT2 == 707_107);
    assert(SCALE == 1_000_000);
}


/// Runs the movement step of one frame: for every entity that matches the
/// movement query, the velocity is rewritten from scratch to the normalized
/// direction of this frame's pressed keys, and the position advances by
/// `direction * elapsed_time * speed`. `dt` is the elapsed frame time in
/// micro-seconds. No matching entity is not an error: nothing happens.
pub fn player_movement_system(world: &mut World, keys: KeySet, dt: i64)
    requires
        old(world).wf(),
        0 <= dt <= DT_LIMIT,
        forall|i: int|
            0 <= i < old(world).num_entities() && #[trigger] old(world).move_match(i) ==> {
                &&& 0 <= old(world).speeds@[i]->0.current <= SPEED_LIMIT
                &&& -POS_LIMIT <= old(world).transforms@[i]->0.translation.x <= POS_LIMIT
                &&& -POS_LIMIT <= old(world).transforms@[i]->0.translation.z <= POS_LIMIT
            },
    ensures
        final(world).wf(),
        final(world).num_entities() == old(world).num_entities(),
        final(world).players@ == old(world).players@,
        final(world).enemies@ == old(world).enemies@,
        final(world).healths@ == old(world).healths@,
        final(world).scores@ == old(world).scores@,
        final(world).speeds@ == old(world).speeds@,
        final(world).cameras@ == old(world).cameras@,
        forall|i: int|
            #![trigger final(world).velocities@[i]]
            #![trigger final(world).transforms@[i]]
            0 <= i < old(world).num_entities() && !old(world).move_match(i) ==> {
                &&& final(world).velocities@[i] == old(world).velocities@[i]
                &&& final(world).transforms@[i] == old(world).transforms@[i]
            },
        forall|i: int|
            #![trigger final(world).velocities@[i]]
            #![trigger final(world).transforms@[i]]
            0 <= i < old(world).num_entities() && old(world).move_match(i) ==> {
                &&& final(world).velocities@[i] == Some(Velocity(norm_vec(keys)))
                &&& final(world).transforms@[i] == Some(
                    Transform {
                        translation: moved(
                            old(world).transforms@[i]->0.translation,
                            keys,
                            old(world).speeds@[i]->0.current as int,
                            dt as int,
                        ),
                    },
                )
            },
        !keys.any_pressed() ==> final(world).transforms@ == old(world).transforms@,
        !keys.any_pressed() ==> forall|i: int|
            0 <= i < old(world).num_entities() && old(world).move_match(i)
                ==> #[trigger] final(world).velocities@[i] == Some(
                Velocity(Vec3 { x: 0, y: 0, z: 0 }),
            ),
{
    let dir = normalize_direction(raw_direction(keys));
    let n = world.entity_count();
    let mut i: usize = 0;
    while i < n
        invariant
            world.wf(),
            n == world.num_entities(),
            n == old(world).num_entities(),
            i <= n,
            0 <= dt <= DT_LIMIT,
            dir == norm_vec(keys),
            -SCALE <= dir.x <= SCALE,
            dir.y == 0,
            -SCALE <= dir.z <= SCALE,
            world.players@ == old(world).players@,
            world.enemies@ == old(world).enemies@,
            world.healths@ == old(world).healths@,
            world.scores@ == old(world).scores@,
            world.speeds@ == old(world).speeds@,
            world.cameras@ == old(world).cameras@,
            forall|j: int|
                0 <= j < old(world).num_entities() && #[trigger] old(world).move_match(j) ==> {
                    &&& 0 <= old(world).speeds@[j]->0.current <= SPEED_LIMIT
                    &&& -POS_LIMIT <= old(world).transforms@[j]->0.translation.x <= POS_LIMIT
                    &&& -POS_LIMIT <= old(world).transforms@[j]->0.translation.z <= POS_LIMIT
                },
            forall|j: int|
                #![trigger world.velocities@[j]]
                #![trigger world.transforms@[j]]
                i <= j < n ==> {
                    &&& world.velocities@[j] == old(world).velocities@[j]
                    &&& world.transforms@[j] == old(world).transforms@[j]
                },
            forall|j: int|
                #![trigger world.velocities@[j]]
                #![trigger world.transforms@[j]]
                0 <= j < i && !old(world).move_match(j) ==> {
                    &&& world.velocities@[j] == old(world).velocities@[j]
                    &&& world.transforms@[j] == old(world).transforms@[j]
                },
            forall|j: int|
                #![trigger world.velocities@[j]]
                #![trigger world.transforms@[j]]
                0 <= j < i && old(world).move_match(j) ==> {
                    &&& world.velocities@[j] == Some(Velocity(norm_vec(keys)))
                    &&& world.transforms@[j] == Some(
                        Transform {
                            translation: moved(
                                old(world).transforms@[j]->0.translation,
                                keys,
                                old(world).speeds@[j]->0.current as int,
                                dt as int,
                            ),
                        },
                    )
                },
        decreases n - i,
    {
        if world.players[i].is_some() && world.velocities[i].is_some() && world.speeds[i].is_some()
            && world.transforms[i].is_some() {
            proof {
                assert(old(world).move_match(i as int));
            }
            let sp = world.speeds[i].unwrap();
            let t0 = world.transforms[i].unwrap();
            let dx = disp_exec(dir.x, sp.current, dt);
            let dz = disp_exec(dir.z, sp.current, dt);
            let nt = Transform {
                translation: Vec3 {
                    x: t0.translation.x + dx,
                    y: t0.translation.y,
                    z: t0.translation.z + dz,
                },
            };
            world.velocities.set(i, Some(Velocity(dir)));
            world.transforms.set(i, Some(nt));
        }
        i += 1;
    }
    proof {
        if !keys.any_pressed() {
            assert(raw_x(keys) == 0 && raw_z(keys) == 0);
            assert forall|j: int|
                0 <= j < n implies world.transforms@[j] == old(world).transforms@[j] by {
                if old(world).move_match(j) {
                    crate::math::lemma_disp_zero(
                        old(world).speeds@[j]->0.current as int,
                        dt as int,
                    );
                }
            }
            assert(world.transforms@ =~= old(world).transforms@);
        }
    }
}

/// Bootstraps the starting roster: creates the rule record, spawns exactly
/// one player ("Alice") and a batch of exactly one enemy ("Bad guy"), and
/// records the number of players just spawned. Runs once, before any frame;
/// running it again would double the roster, which the frame scheduler, not
/// this function, must rule out.
pub fn startup_system(world: &mut World, game_state: &mut GameState) -> (rules: GameRules)
    requires
        old(world).wf(),
    ensures
        final(world).wf(),
        rules == (GameRules { winning_score: 4, max_rounds: 10, max_players: 4 }),
        final(game_state).total_players == 1,
        final(game_state).current_round == old(game_state).current_round,
        final(game_state).winning_player == old(game_state).winning_player,
        final(world).num_entities() == old(world).num_entities() + 2,
        forall|i: int|
            #![trigger final(world).players@[i]]
            #![trigger final(world).enemies@[i]]
            #![trigger final(world).transforms@[i]]
            0 <= i < old(world).num_entities() ==> {
                &&& final(world).players@[i] == old(world).players@[i]
                &&& final(world).enemies@[i] == old(world).enemies@[i]
                &&& final(world).healths@[i] == old(world).healths@[i]
                &&& final(world).scores@[i] == old(world).scores@[i]
                &&& final(world).speeds@[i] == old(world).speeds@[i]
                &&& final(world).velocities@[i] == old(world).velocities@[i]
                &&& final(world).transforms@[i] == old(world).transforms@[i]
                &&& final(world).cameras@[i] == old(world).cameras@[i]
            },
        ({
            let n = old(world).num_entities();
            &&& final(world).players@[n] matches Some(p) && p.name@ == "Alice"@
            &&& final(world).enemies@[n] is None
            &&& final(world).healths@[n] == Some(Health { current: 100, max: 100 })
            &&& final(world).scores@[n] == Some(Score { value: 0 })
            &&& final(world).speeds@[n] == Some(Speed { current: 2_000_000, max: 2_000_000 })
            &&& final(world).velocities@[n] == Some(Velocity(Vec3 { x: 0, y: 0, z: 0 }))
            &&& final(world).transforms@[n] == Some(
                Transform { translation: Vec3 { x: 1_500_000, y: 500_000, z: 1_500_000 } },
            )
            &&& final(world).cameras@[n] == false
        }),
        ({
            let n = old(world).num_entities();
            &&& final(world).players@[n + 1] is None
            &&& final(world).enemies@[n + 1] matches Some(e) && e.name@ == "Bad guy"@
            &&& final(world).healths@[n + 1] == Some(Health { current: 100, max: 100 })
            &&& final(world).scores@[n + 1] is None
            &&& final(world).speeds@[n + 1] is None
            &&& final(world).velocities@[n + 1] is None
            &&& final(world).transforms@[n + 1] is None
            &&& final(world).cameras@[n + 1] == false
        }),
{
    let rules = GameRules { winning_score: 4, max_rounds: 10, max_players: 4 };
    let player = PlayerBundle {
        marker: Player { name: String::from_str("Alice") },
        health: Health { current: 100, max: 100 },
        score: Score { value: 0 },
        transform: Transform { translation: Vec3 { x: 1_500_000, y: 500_000, z: 1_500_000 } },
        velocity: Velocity(Vec3::zero()),
        speed: Speed { current: 2_000_000, max: 2_000_000 },
    };
    let _ = world.spawn_player(player);
    let enemies = vec![
        EnemyBundle {
            marker: Enemy { name: String::from_str("Bad guy") },
            health: Health { current: 100, max: 100 },
        },
    ];
    world.spawn_enemy_batch(enemies);
    game_state.total_players = 1;
    rules
}

} // verus!
