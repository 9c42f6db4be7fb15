//! A verified entity-component simulation core for a top-down game.
//!
//! The crate holds the game's only real logic: an entity registry (an arena
//! of entity indices over per-component stores), a per-frame movement system
//! driven by four diagonal movement keys, a viewpoint-tracking system that
//! keeps the view locked onto the player, and a one-time bootstrap of the
//! starting roster and rule records. Rendering, windowing and input drivers
//! are an external collaborator's job: a host shell feeds the core each
//! frame's elapsed time and pressed keys and reads transforms back.
//!
//! All coordinates, speeds and times are fixed-point integers in micro-units
//! (see [`math::SCALE`]), so every per-frame computation is exact machine
//! arithmetic with proved bounds.

pub mod camera;
pub mod components;
pub mod math;
pub mod registry;
pub mod states;
