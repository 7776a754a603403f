//! Per-frame simulation core of a small 2D arcade chase game: steering
//! toward or away from targets, obstacle-aware movement integration,
//! knock-back physics on collision, per-kind hostile behavior, and the
//! win/lose outcome of each frame.
//!
//! World geometry is kept in fixed-point coordinates: one world unit is
//! `geom::UNIT` (1000) stored ticks and time runs in milliseconds, so
//! every position, size, speed and fraction is an exact `i64` and every
//! step of the simulation is a pure integer function whose effect Verus
//! checks field by field.
//!
//! Modules, leaves first:
//! - `nums`: truncating division, clamping and a verified integer square
//!   root;
//! - `geom`: axis-aligned rectangles, overlap and intersection tests, and
//!   linear interpolation between points;
//! - `steer`: normalize-or-zero directions and steering by summing unit
//!   vectors toward (or away from) a list of target points;
//! - `pathfind`: the obstacle-aware integrator with its push-back
//!   correction loop;
//! - `bounce`: eased knock-back playback toward a bounce destination;
//! - `kinds`: the closed sets of entity kinds and their constant tables;
//! - `world`: the entities, their invariants, and level construction;
//! - `phases`: the per-frame phases and the `step` driver.

pub mod bounce;
pub mod geom;
pub mod kinds;
pub mod nums;
pub mod pathfind;
pub mod phases;
pub mod steer;
pub mod world;
