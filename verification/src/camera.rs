//! Viewpoint setup and per-frame viewpoint tracking.
//!
//! The viewpoint is an entity carrying a transform and the [`MainCamera`]
//! marker. Each frame, after movement, the tracking system copies the
//! player's two ground-plane coordinates (`x` and `z`) into the viewpoint
//! transform and leaves the viewpoint's elevation (`y`) untouched, so the
//! view follows the player horizontally from a fixed height. Projection,
//! orientation and field of view belong to the rendering collaborator.

use vstd::prelude::*;
use crate::components::Transform;
use crate::math::Vec3;
use crate::registry::{SingleMatch, World};

verus! {

/// Spawns the viewpoint entity at its fixed starting position
/// `(5, 12, 16)` in world units.
pub fn setup(world: &mut World)
    requires
        old(world).wf(),
    ensures
        final(world).wf(),
        final(world).num_entities() == old(world).num_entities() + 1,
        final(world).players@ == old(world).players@.push(None),
        final(world).enemies@ == old(world).enemies@.push(None),
        final(world).healths@ == old(world).healths@.push(None),
        final(world).scores@ == old(world).scores@.push(None),
        final(world).speeds@ == old(world).speeds@.push(None),
        final(world).velocities@ == old(world).velocities@.push(None),
        final(world).transforms@ == old(world).transforms@.push(
            Some(
                Transform { translation: Vec3 { x: 5_000_000, y: 12_000_000, z: 16_000_000 } },
            ),
        ),
        final(world).cameras@ == old(world).cameras@.push(true),
{
    let _ = world.spawn_camera(
        Transform { translation: Vec3 { x: 5_000_000, y: 12_000_000, z: 16_000_000 } },
    );
}

/// Runs the viewpoint-tracking step of one frame: when exactly one entity
/// matches the tracked-player query and exactly one matches the viewpoint
/// query, the player's ground-plane coordinates are copied into the
/// viewpoint transform, elevation untouched. On zero or several matches of
/// either query the frame is skipped unchanged — absence and duplicates are
/// never a fatal error.
pub fn camera_follow_system(world: &mut World)
    requires
        old(world).wf(),
    ensures
        final(world).wf(),
        final(world).num_entities() == old(world).num_entities(),
        final(world).players@ == old(world).players@,
        final(world).enemies@ == old(world).enemies@,
        final(world).healths@ == old(world).healths@,
        final(world).scores@ == old(world).scores@,
        final(world).speeds@ == old(world).speeds@,
        final(world).velocities@ == old(world).velocities@,
        final(world).cameras@ == old(world).cameras@,
        old(world).unique_tracked_player() && old(world).unique_camera() ==> {
            let p = old(world).tracked_player_index();
            let c = old(world).camera_index();
            final(world).transforms@ == old(world).transforms@.update(
                c,
                Some(
                    Transform {
                        translation: Vec3 {
                            x: old(world).transforms@[p]->0.translation.x,
                            y: old(world).transforms@[c]->0.translation.y,
                            z: old(world).transforms@[p]->0.translation.z,
                        },
                    },
                ),
            )
        },
        !(old(world).unique_tracked_player() && old(world).unique_camera())
            ==> final(world).transforms@ == old(world).transforms@,
{
    let player_match = world.single_tracked_player();
    match player_match {
        SingleMatch::One(p) => {
            let camera_match = world.single_camera();
            match camera_match {
                SingleMatch::One(c) => {
                    proof {
                        assert(old(world).only_tracked_player(p as int));
                        assert(old(world).only_camera(c as int));
                        let pi = old(world).tracked_player_index();
                        let ci = old(world).camera_index();
                        assert(old(world).only_tracked_player(pi));
                        assert(old(world).only_camera(ci));
                        assert(pi == p as int);
                        assert(ci == c as int);
                    }
                    let pt = world.transforms[p].unwrap().translation;
                    let ct = world.transforms[c].unwrap().translation;
                    world.transforms.set(
                        c,
                        Some(Transform { translation: Vec3 { x: pt.x, y: ct.y, z: pt.z } }),
                    );
                },
                _ => {},
            }
        },
        _ => {},
    }
}

} // verus!
