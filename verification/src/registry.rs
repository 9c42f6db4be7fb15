//! The entity registry: an arena of entity indices over dense
//! per-component stores.
//!
//! An entity is an index; each component kind has one store whose slot `i`
//! holds that component of entity `i`, if the entity carries it. All stores
//! always have the same length, one slot per live entity. Queries are
//! predicates over an index; the singleton queries report explicitly whether
//! zero, one or many entities match, so that systems can skip a frame on
//! anything but a unique match instead of failing.

use vstd::prelude::*;
use crate::components::{
    Enemy, EnemyBundle, Health, Player, PlayerBundle, Score, Speed, Transform, Velocity,
};

verus! {

/// Outcome of a query that expects a unique match.
#[derive(Clone, Copy, Debug)]
pub enum SingleMatch {
    /// No entity matched.
    Zero,
    /// Exactly one entity matched: the one carried here.
    One(usize),
    /// Two or more entities matched.
    Many,
}

/// The live set of entities with their attached components.
pub struct World {
    pub players: Vec<Option<Player>>,
    pub enemies: Vec<Option<Enemy>>,
    pub healths: Vec<Option<Health>>,
    pub scores: Vec<Option<Score>>,
    pub speeds: Vec<Option<Speed>>,
    pub velocities: Vec<Option<Velocity>>,
    pub transforms: Vec<Option<Transform>>,
    pub cameras: Vec<bool>,
}

impl World {
    /// Number of live entities.
    pub open spec fn num_entities(self) -> int {
        self.players@.len() as int
    }

    /// Every component store has one slot per entity.
    pub open spec fn wf(self) -> bool {
        &&& self.enemies@.len() == self.players@.len()
        &&& self.healths@.len() == self.players@.len()
        &&& self.scores@.len() == self.players@.len()
        &&& self.speeds@.len() == self.players@.len()
        &&& self.velocities@.len() == self.players@.len()
        &&& self.transforms@.len() == self.players@.len()
        &&& self.cameras@.len() == self.players@.len()
    }

    /// An empty world.
    pub fn new() -> (w: World)
        ensures
            w.wf(),
            w.num_entities() == 0,
    {
        World {
            players: Vec::new(),
            enemies: Vec::new(),
            healths: Vec::new(),
            scores: Vec::new(),
            speeds: Vec::new(),
            velocities: Vec::new(),
            transforms: Vec::new(),
            cameras: Vec::new(),
        }
    }

    /// Number of live entities.
    pub fn entity_count(&self) -> (n: usize)
        ensures
            n == self.num_entities(),
    {
        self.players.len()
    }

    /// Spawns one player entity from its bundle; returns its identity.
    pub fn spawn_player(&mut self, b: PlayerBundle) -> (id: usize)
        requires
            old(self).wf(),
        ensures
            final(self).wf(),
            id == old(self).num_entities(),
            final(self).players@ == old(self).players@.push(Some(b.marker)),
            final(self).enemies@ == old(self).enemies@.push(Option::<Enemy>::None),
            final(self).healths@ == old(self).healths@.push(Some(b.health)),
            final(self).scores@ == old(self).scores@.push(Some(b.score)),
            final(self).speeds@ == old(self).speeds@.push(Some(b.speed)),
            final(self).velocities@ == old(self).velocities@.push(Some(b.velocity)),
            final(self).transforms@ == old(self).transforms@.push(Some(b.transform)),
            final(self).cameras@ == old(self).cameras@.push(false),
    {
        let id = self.players.len();
        self.players.push(Some(b.marker));
        self.enemies.push(None);
        self.healths.push(Some(b.health));
        self.scores.push(Some(b.score));
        self.speeds.push(Some(b.speed));
        self.velocities.push(Some(b.velocity));
        self.transforms.push(Some(b.transform));
        self.cameras.push(false);
        id
    }

    /// Spawns one enemy entity from its bundle; returns its identity.
    pub fn spawn_enemy(&mut self, b: EnemyBundle) -> (id: usize)
        requires
            old(self).wf(),
        ensures
            final(self).wf(),
            id == old(self).num_entities(),
            final(self).players@ == old(self).players@.push(Option::<Player>::None),
            final(self).enemies@ == old(self).enemies@.push(Some(b.marker)),
            final(self).healths@ == old(self).healths@.push(Some(b.health)),
            final(self).scores@ == old(self).scores@.push(Option::<Score>::None),
            final(self).speeds@ == old(self).speeds@.push(Option::<Speed>::None),
            final(self).velocities@ == old(self).velocities@.push(Option::<Velocity>::None),
            final(self).transforms@ == old(self).transforms@.push(Option::<Transform>::None),
            final(self).cameras@ == old(self).cameras@.push(false),
    {
        let id = self.players.len();
        self.players.push(None);
        self.enemies.push(Some(b.marker));
        self.healths.push(Some(b.health));
        self.scores.push(None);
        self.speeds.push(None);
        self.velocities.push(None);
        self.transforms.push(None);
        self.cameras.push(false);
        id
    }

    /// Spawns one viewpoint entity carrying only a transform and the
    /// viewpoint marker; returns its identity.
    pub fn spawn_camera(&mut self, t: Transform) -> (id: usize)
        requires
            old(self).wf(),
        ensures
            final(self).wf(),
            id == old(self).num_entities(),
            final(self).players@ == old(self).players@.push(Option::<Player>::None),
            final(self).enemies@ == old(self).enemies@.push(Option::<Enemy>::None),
            final(self).healths@ == old(self).healths@.push(Option::<Health>::None),
            final(self).scores@ == old(self).scores@.push(Option::<Score>::None),
            final(self).speeds@ == old(self).speeds@.push(Option::<Speed>::None),
            final(self).velocities@ == old(self).velocities@.push(Option::<Velocity>::None),
            final(self).transforms@ == old(self).transforms@.push(Some(t)),
            final(self).cameras@ == old(self).cameras@.push(true),
    {
        let id = self.players.len();
        self.players.push(None);
        self.enemies.push(None);
        self.healths.push(None);
        self.scores.push(None);
        self.speeds.push(None);
        self.velocities.push(None);
        self.transforms.push(Some(t));
        self.cameras.push(true);
        id
    }

    /// Batch-spawns enemy entities, one per bundle, in order.
    pub fn spawn_enemy_batch(&mut self, batch: Vec<EnemyBundle>)
        requires
            old(self).wf(),
        ensures
            final(self).wf(),
            final(self).num_entities() == old(self).num_entities() + batch@.len(),
            forall|i: int|
                0 <= i < old(self).num_entities() ==> {
                    &&& final(self).players@[i] == old(self).players@[i]
                    &&& final(self).enemies@[i] == old(self).enemies@[i]
                    &&& final(self).healths@[i] == old(self).healths@[i]
                    &&& final(self).scores@[i] == old(self).scores@[i]
                    &&& final(self).speeds@[i] == old(self).speeds@[i]
                    &&& final(self).velocities@[i] == old(self).velocities@[i]
                    &&& final(self).transforms@[i] == old(self).transforms@[i]
                    &&& final(self).cameras@[i] == old(self).cameras@[i]
                },
            forall|m: int|
                #![trigger final(self).players@[m]]
                #![trigger final(self).enemies@[m]]
                #![trigger final(self).healths@[m]]
                #![trigger final(self).scores@[m]]
                #![trigger final(self).speeds@[m]]
                #![trigger final(self).velocities@[m]]
                #![trigger final(self).transforms@[m]]
                #![trigger final(self).cameras@[m]]
                old(self).num_entities() <= m < final(self).num_entities() ==> {
                    &&& final(self).players@[m] is None
                    &&& final(self).enemies@[m] == Some(
                        batch@[m - old(self).num_entities()].marker,
                    )
                    &&& final(self).healths@[m] == Some(
                        batch@[m - old(self).num_entities()].health,
                    )
                    &&& final(self).scores@[m] is None
                    &&& final(self).speeds@[m] is None
                    &&& final(self).velocities@[m] is None
                    &&& final(self).transforms@[m] is None
                    &&& final(self).cameras@[m] == false
                },
    {
        let ghost batch0 = batch@;
        let ghost n0 = self.num_entities();
        let mut rest = batch;
        while rest.len() > 0
            invariant
                self.wf(),
                n0 + batch0.len() == self.num_entities() + rest@.len(),
                n0 <= self.num_entities(),
                rest@ == batch0.skip(self.num_entities() - n0),
                forall|i: int|
                    0 <= i < n0 ==> {
                        &&& self.players@[i] == old(self).players@[i]
                        &&& self.enemies@[i] == old(self).enemies@[i]
                        &&& self.healths@[i] == old(self).healths@[i]
                        &&& self.scores@[i] == old(self).scores@[i]
                        &&& self.speeds@[i] == old(self).speeds@[i]
                        &&& self.velocities@[i] == old(self).velocities@[i]
                        &&& self.transforms@[i] == old(self).transforms@[i]
                        &&& self.cameras@[i] == old(self).cameras@[i]
                    },
                forall|m: int|
                    #![trigger self.players@[m]]
                    #![trigger self.enemies@[m]]
                    #![trigger self.healths@[m]]
                    #![trigger self.scores@[m]]
                    #![trigger self.speeds@[m]]
                    #![trigger self.velocities@[m]]
                    #![trigger self.transforms@[m]]
                    #![trigger self.cameras@[m]]
                    n0 <= m < self.num_entities() ==> {
                        &&& self.players@[m] is None
                        &&& self.enemies@[m] == Some(batch0[m - n0].marker)
                        &&& self.healths@[m] == Some(batch0[m - n0].health)
                        &&& self.scores@[m] is None
                        &&& self.speeds@[m] is None
                        &&& self.velocities@[m] is None
                        &&& self.transforms@[m] is None
                        &&& self.cameras@[m] == false
                    },
                old(self).wf(),
                old(self).num_entities() == n0,
            decreases rest@.len(),
        {
            let ghost k = self.num_entities() - n0;
            let ghost prev = *self;
            let b = rest.remove(0);
            proof {
                assert(b == batch0[k]);
                assert(rest@ =~= batch0.skip(k + 1));
            }
            self.spawn_enemy(b);
            proof {
                assert(forall|m: int|
                    #![trigger self.players@[m]]
                    #![trigger self.enemies@[m]]
                    0 <= m < n0 + k ==> {
                        &&& self.players@[m] == prev.players@[m]
                        &&& self.enemies@[m] == prev.enemies@[m]
                        &&& self.healths@[m] == prev.healths@[m]
                        &&& self.scores@[m] == prev.scores@[m]
                        &&& self.speeds@[m] == prev.speeds@[m]
                        &&& self.velocities@[m] == prev.velocities@[m]
                        &&& self.transforms@[m] == prev.transforms@[m]
                        &&& self.cameras@[m] == prev.cameras@[m]
                    });
                assert(self.enemies@[n0 + k] == Some(batch0[k].marker));
                assert(self.healths@[n0 + k] == Some(batch0[k].health));
                assert(self.players@[n0 + k] is None);
                assert(self.scores@[n0 + k] is None);
                assert(self.speeds@[n0 + k] is None);
                assert(self.velocities@[n0 + k] is None);
                assert(self.transforms@[n0 + k] is None);
                assert(self.cameras@[n0 + k] == false);
            }
        }
    }

    /// Entity `i` matches the movement query: a player that carries
    /// velocity, speed and a transform.
    pub open spec fn move_match(self, i: int) -> bool {
        &&& self.players@[i] is Some
        &&& self.velocities@[i] is Some
        &&& self.speeds@[i] is Some
        &&& self.transforms@[i] is Some
    }

    /// Entity `i` matches the viewpoint query: it carries a transform and
    /// the viewpoint marker.
    pub open spec fn camera_match(self, i: int) -> bool {
        &&& self.transforms@[i] is Some
        &&& self.cameras@[i]
    }

    /// Entity `i` matches the tracked-player query: a player that carries a
    /// transform and is not also marked as the viewpoint.
    pub open spec fn tracked_player_match(self, i: int) -> bool {
        &&& self.players@[i] is Some
        &&& self.transforms@[i] is Some
        &&& !self.cameras@[i]
    }

    /// Entity `i` is the sole match of the viewpoint query.
    pub open spec fn only_camera(self, i: int) -> bool {
        &&& 0 <= i < self.num_entities()
        &&& self.camera_match(i)
        &&& forall|j: int|
            0 <= j < self.num_entities() && #[trigger] self.camera_match(j) ==> j == i
    }

    /// The viewpoint query has exactly one match.
    pub open spec fn unique_camera(self) -> bool {
        exists|i: int| self.only_camera(i)
    }

    /// Index of the sole match of the viewpoint query.
    pub open spec fn camera_index(self) -> int {
        choose|i: int| self.only_camera(i)
    }

    /// Entity `i` is the sole match of the tracked-player query.
    pub open spec fn only_tracked_player(self, i: int) -> bool {
        &&& 0 <= i < self.num_entities()
        &&& self.tracked_player_match(i)
        &&& forall|j: int|
            0 <= j < self.num_entities() && #[trigger] self.tracked_player_match(j) ==> j == i
    }

    /// The tracked-player query has exactly one match.
    pub open spec fn unique_tracked_player(self) -> bool {
        exists|i: int| self.only_tracked_player(i)
    }

    /// Index of the sole match of the tracked-player query.
    pub open spec fn tracked_player_index(self) -> int {
        choose|i: int| self.only_tracked_player(i)
    }

    /// Runs the viewpoint query, reporting whether zero, one or many
    /// entities match; never an error, whatever the roster holds.
    pub fn single_camera(&self) -> (m: SingleMatch)
        requires
            self.wf(),
        ensures
            (m is Zero) <==> (forall|i: int|
                0 <= i < self.num_entities() ==> !(#[trigger] self.camera_match(i))),
            (m is One) <==> self.unique_camera(),
            m matches SingleMatch::One(k) ==> self.only_camera(k as int),
    {
        let n = self.players.len();
        let mut found: Option<usize> = None;
        let mut many: bool = false;
        let mut i: usize = 0;
        while i < n
            invariant
                self.wf(),
                n == self.num_entities(),
                i <= n,
                found is None ==> !many && (forall|j: int|
                    0 <= j < i ==> !(#[trigger] self.camera_match(j))),
                found matches Some(k) ==> {
                    &&& k < i
                    &&& self.camera_match(k as int)
                    &&& !many ==> (forall|j: int|
                        0 <= j < i && #[trigger] self.camera_match(j) ==> j == k as int)
                    &&& many ==> (exists|j: int|
                        0 <= j < i && j != k as int && #[trigger] self.camera_match(j))
                },
            decreases n - i,
        {
            if self.cameras[i] && self.transforms[i].is_some() {
                proof {
                    assert(self.camera_match(i as int));
                }
                match found {
                    None => {
                        found = Some(i);
                    },
                    Some(_) => {
                        many = true;
                    },
                }
            }
            i += 1;
        }
        match found {
            None => {
                proof {
                    assert(!self.unique_camera()) by {
                        if self.unique_camera() {
                            let c = choose|j: int| self.only_camera(j);
                            assert(self.only_camera(c));
                            assert(self.camera_match(c));
                        }
                    }
                }
                SingleMatch::Zero
            },
            Some(k) => {
                if many {
                    proof {
                        let j2 = choose|j: int|
                            0 <= j < self.num_entities() && j != k as int
                                && #[trigger] self.camera_match(j);
                        assert(self.camera_match(j2));
                        assert(!self.unique_camera()) by {
                            if self.unique_camera() {
                                let c = choose|j: int| self.only_camera(j);
                                assert(self.only_camera(c));
                                assert(c == k as int);
                                assert(c == j2);
                            }
                        }
                    }
                    SingleMatch::Many
                } else {
                    proof {
                        assert(self.only_camera(k as int));
                    }
                    SingleMatch::One(k)
                }
            },
        }
    }

    /// Runs the tracked-player query, reporting whether zero, one or many
    /// entities match; never an error, whatever the roster holds.
    pub fn single_tracked_player(&self) -> (m: SingleMatch)
        requires
            self.wf(),
        ensures
            (m is Zero) <==> (forall|i: int|
                0 <= i < self.num_entities() ==> !(#[trigger] self.tracked_player_match(i))),
            (m is One) <==> self.unique_tracked_player(),
            m matches SingleMatch::One(k) ==> self.only_tracked_player(k as int),
    {
        let n = self.players.len();
        let mut found: Option<usize> = None;
        let mut many: bool = false;
        let mut i: usize = 0;
        while i < n
            invariant
                self.wf(),
                n == self.num_entities(),
                i <= n,
                found is None ==> !many && (forall|j: int|
                    0 <= j < i ==> !(#[trigger] self.tracked_player_match(j))),
                found matches Some(k) ==> {
                    &&& k < i
                    &&& self.tracked_player_match(k as int)
                    &&& !many ==> (forall|j: int|
                        0 <= j < i && #[trigger] self.tracked_player_match(j) ==> j == k as int)
                    &&& many ==> (exists|j: int|
                        0 <= j < i && j != k as int && #[trigger] self.tracked_player_match(j))
                },
            decreases n - i,
        {
            if self.players[i].is_some() && self.transforms[i].is_some() && !self.cameras[i] {
                proof {
                    assert(self.tracked_player_match(i as int));
                }
                match found {
                    None => {
                        found = Some(i);
                    },
                    Some(_) => {
                        many = true;
                    },
                }
            }
            i += 1;
        }
        match found {
            None => {
                proof {
                    assert(!self.unique_tracked_player()) by {
                        if self.unique_tracked_player() {
                            let c = choose|j: int| self.only_tracked_player(j);
                            assert(self.only_tracked_player(c));
                            assert(self.tracked_player_match(c));
                        }
                    }
                }
                SingleMatch::Zero
            },
            Some(k) => {
                if many {
                    proof {
                        let j2 = choose|j: int|
                            0 <= j < self.num_entities() && j != k as int
                                && #[trigger] self.tracked_player_match(j);
                        assert(self.tracked_player_match(j2));
                        assert(!self.unique_tracked_player()) by {
                            if self.unique_tracked_player() {
                                let c = choose|j: int| self.only_tracked_player(j);
                                assert(self.only_tracked_player(c));
                                assert(c == k as int);
                                assert(c == j2);
                            }
                        }
                    }
                    SingleMatch::Many
                } else {
                    proof {
                        assert(self.only_tracked_player(k as int));
                    }
                    SingleMatch::One(k)
                }
            },
        }
    }
}

} // verus!
