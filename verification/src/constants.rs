//! Build-time configuration of the simulation.
//!
//! Lengths are in milli-units (1 unit = 1000 milli-units), times in
//! microseconds, angles in milli-radians.

use vstd::prelude::*;

verus! {

/// Milli-units per unit: the fixed-point scale of every length.
pub const MILLI_PER_UNIT: i64 = 1000;

/// Base speed, 500 units per second, in milli-units per second.
pub const BASE_SPEED_MILLI: i64 = 500_000;

/// Displacement per tick for a unit velocity: base speed times the tick
/// step of 1/60 s, in milli-units (500_000 / 60, rounded down).
pub const STEP_SPEED_MILLI: i64 = 8_333;

/// Margin added to the viewport on all four sides for the despawn check.
pub const WINDOW_MARGIN_MILLI: i64 = 200_000;

/// Capacity of the enemy formation flight: at most this many live enemies.
pub const MAX_ENEMIES: u32 = 4;

/// How many enemies share one randomly drawn formation template.
pub const FORMATION_MEMBERS_MAX: u32 = 2;

/// Cooldown between the player being shot down and the next spawn, 2 s.
pub const PLAYER_RESPAWN_DELAY_US: i64 = 2_000_000;

/// Number of frames in the explosion sheet.
pub const EXPLOSION_LENGTH: u32 = 16;

/// Time each explosion frame is shown, 0.05 s.
pub const EXPLOSION_INTERVAL_US: i64 = 50_000;

/// Uniform transform scale applied to every sprite, 0.5 in milli.
pub const SPRITE_SCALE_MILLI: i64 = 500;

/// Sprite bounding sizes (width, height) in milli-units, before scaling.
pub const PLAYER_SIZE_W: i64 = 144_000;
pub const PLAYER_SIZE_H: i64 = 75_000;
pub const PLAYER_LASER_SIZE_W: i64 = 9_000;
pub const PLAYER_LASER_SIZE_H: i64 = 54_000;
pub const ENEMY_SIZE_W: i64 = 144_000;
pub const ENEMY_SIZE_H: i64 = 75_000;
pub const ENEMY_LASER_SIZE_W: i64 = 17_000;
pub const ENEMY_LASER_SIZE_H: i64 = 55_000;

/// Height of the player spawn point above the bottom viewport edge: half
/// the scaled player height plus a 5-unit gap, in milli-units.
pub const PLAYER_SPAWN_LIFT: i64 = 23_750;

/// Horizontal offset of the player's two laser muzzles from its centre:
/// half the scaled player width less a 5-unit inset, in milli-units.
pub const PLAYER_FIRE_X_OFF: i64 = 31_000;

/// Vertical offset of a laser spawn from the firing ship, in milli-units.
pub const FIRE_Y_OFF: i64 = 15_000;

/// Edge length of one explosion sheet cell, in milli-units.
pub const EXPLOSION_CELL: i64 = 64_000;

/// Velocities in milli (a velocity of 1000 is one unit direction).
pub const PLAYER_MOVE_VEL: i64 = 1_000;
pub const PLAYER_LASER_VEL_Y: i64 = 1_300;
pub const ENEMY_LASER_VEL_Y: i64 = -600;

/// Largest coordinate magnitude any live entity may hold.
pub const POS_LIMIT: i64 = 1_100_000_000;

/// Motion integration clamps coordinates to this magnitude.
pub const MOVE_CLAMP: i64 = 1_000_000_000;

/// Largest coordinate magnitude a live enemy may hold: formation flight
/// keeps every enemy between its spawn edge and its on-screen ellipse.
pub const ENEMY_POS_LIMIT: i64 = 10_000_000;

/// Largest velocity component magnitude, in milli.
pub const VEL_LIMIT: i64 = 2_000;

/// Largest sprite extent, in milli-units.
pub const SIZE_LIMIT: i64 = 1_000_000;

/// Largest transform scale, in milli.
pub const SCALE_LIMIT: i64 = 2_000;

/// Largest viewport width or height accepted, in milli-units.
pub const WINDOW_LIMIT: i64 = 4_000_000;

/// Bounds on formation geometry, in milli-units.
pub const RADIUS_MIN: i64 = 80_000;
pub const RADIUS_MAX: i64 = 200_000;
pub const PIVOT_LIMIT: i64 = 4_000_000;
pub const START_LIMIT: i64 = 8_000_000;

/// Largest angular speed accepted, in milli-units per second.
pub const SPEED_LIMIT: i64 = 1_000_000;

/// One half turn in milli-radians.
pub const PI_MRAD: i64 = 3_142;

/// One full turn in milli-radians.
pub const TWO_PI_MRAD: i64 = 6_284;

/// Largest timestamp accepted, in microseconds.
pub const TIME_LIMIT_US: i64 = 4_000_000_000_000_000;

/// Cap on an explosion timer's accumulated backlog, in microseconds.
pub const TIMER_CAP_US: i64 = 1_000_000_000_000;

/// Period of the timed enemy spawn check, 1 s.
pub const ENEMY_SPAWN_PERIOD_US: i64 = 1_000_000;

/// Period of the player respawn check, 0.5 s.
pub const PLAYER_CHECK_PERIOD_US: i64 = 500_000;

/// The enemy volley fires on average once per this many ticks.
pub const ENEMY_FIRE_ONE_IN: u32 = 60;

} // verus!
