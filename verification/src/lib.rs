//! Simulation core of a 2D arcade shooter.
//!
//! The crate owns entity lifecycle, per-tick motion integration, elliptical
//! enemy formation paths, axis-aligned collision resolution, a timed player
//! respawn state machine, and a frame-indexed explosion animator.  All
//! geometry is carried in milli-units (one coordinate unit is 1000
//! milli-units) and all time in microseconds, so that every computation is
//! exact integer arithmetic with a proved contract.

pub mod collision;
pub mod components;
pub mod constants;
pub mod enemy;
pub mod explosion;
pub mod fixed;
pub mod formation;
pub mod laws;
pub mod motion;
pub mod player;
pub mod resources;
mod rng;
pub mod tick;
pub mod trig;
pub mod world;
