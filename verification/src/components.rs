//! Components attached to simulation entities.
//!
//! Entities are composed of a mutually exclusive role tag plus optional
//! data components; the tag is a closed variant over the marker types, so
//! that an entity holds exactly one role for its lifetime.

use vstd::prelude::*;
use crate::constants::{
    EXPLOSION_INTERVAL_US, EXPLOSION_LENGTH, SIZE_LIMIT, TIMER_CAP_US, VEL_LIMIT,
};
use crate::fixed::abs_i;

verus! {

/// A point of the plane in milli-units, depth kept separately by the layer.
#[derive(Clone, Copy, PartialEq, Eq, Structural, Debug)]
pub struct Pos {
    pub x: i64,
    pub y: i64,
}

impl Pos {
    /// Both coordinates within the symmetric box of half-side `lim`.
    pub open spec fn in_box(self, lim: int) -> bool {
        &&& -lim <= self.x <= lim
        &&& -lim <= self.y <= lim
    }

    pub fn new(x: i64, y: i64) -> (p: Pos)
        ensures
            p.x == x,
            p.y == y,
    {
        Pos { x, y }
    }
}

/// Velocity direction in milli: 1000 is one unit direction, scaled at
/// integration time by the base speed and the tick step.
#[derive(Clone, Copy, PartialEq, Eq, Structural, Debug)]
pub struct Velocity {
    pub x: i64,
    pub y: i64,
}

impl Velocity {
    /// Component magnitudes small enough for exact integration.
    pub open spec fn bounded(self) -> bool {
        &&& abs_i(self.x as int) <= VEL_LIMIT
        &&& abs_i(self.y as int) <= VEL_LIMIT
    }

    /// The zero velocity.
    pub fn none() -> (v: Velocity)
        ensures
            v.x == 0,
            v.y == 0,
            v.bounded(),
    {
        Velocity { x: 0, y: 0 }
    }

    /// A purely vertical velocity.
    pub fn y(value: i64) -> (v: Velocity)
        requires
            -VEL_LIMIT <= value <= VEL_LIMIT,
        ensures
            v.x == 0,
            v.y == value,
            v.bounded(),
    {
        Velocity { x: 0, y: value }
    }
}

/// Marks an entity that the motion integrator moves; `auto_despawn` decides
/// whether leaving the margin-extended viewport destroys it.
#[derive(Clone, Copy, PartialEq, Eq, Structural, Debug)]
pub struct Movable {
    auto_despawn: bool,
}

impl Movable {
    /// Whether the boundary check applies to the carrier.
    pub closed spec fn auto_despawn_spec(self) -> bool {
        self.auto_despawn
    }

    pub fn with_auto_despawn(set: bool) -> (m: Movable)
        ensures
            m.auto_despawn_spec() == set,
    {
        Movable { auto_despawn: set }
    }

    pub fn should_auto_despawn(&self) -> (r: bool)
        ensures
            r == self.auto_despawn_spec(),
    {
        self.auto_despawn
    }
}

/// Marker: a projectile.
#[derive(Clone, Copy, PartialEq, Eq, Structural, Debug)]
pub struct Laser;

/// Marker: fired by the player.
#[derive(Clone, Copy, PartialEq, Eq, Structural, Debug)]
pub struct FromPlayer;

/// Marker: fired by an enemy.
#[derive(Clone, Copy, PartialEq, Eq, Structural, Debug)]
pub struct FromEnemy;

/// Marker: the player ship.
#[derive(Clone, Copy, PartialEq, Eq, Structural, Debug)]
pub struct Player;

/// Marker: an enemy ship.
#[derive(Clone, Copy, PartialEq, Eq, Structural, Debug)]
pub struct Enemy;

/// Marker: a running explosion animation.
#[derive(Clone, Copy, PartialEq, Eq, Structural, Debug)]
pub struct Explosion;

/// The mutually exclusive role of an entity: the closed set of marker
/// combinations an entity may carry.
#[derive(Clone, Copy, PartialEq, Eq, Structural, Debug)]
pub enum Role {
    Player(Player),
    Enemy(Enemy),
    PlayerLaser(Laser, FromPlayer),
    EnemyLaser(Laser, FromEnemy),
    Explosion(Explosion),
}

impl Role {
    pub open spec fn is_player(self) -> bool {
        self is Player
    }

    pub open spec fn is_enemy(self) -> bool {
        self is Enemy
    }

    pub open spec fn is_player_laser(self) -> bool {
        self is PlayerLaser
    }

    pub open spec fn is_enemy_laser(self) -> bool {
        self is EnemyLaser
    }

    pub open spec fn is_explosion(self) -> bool {
        self is Explosion
    }
}

/// Unscaled bounding size of a sprite, in milli-units.
#[derive(Clone, Copy, PartialEq, Eq, Structural, Debug)]
pub struct SpriteSize {
    pub w: i64,
    pub h: i64,
}

impl SpriteSize {
    /// Extents nonnegative and small enough for exact overlap tests.
    pub open spec fn bounded(self) -> bool {
        &&& 0 <= self.w <= SIZE_LIMIT
        &&& 0 <= self.h <= SIZE_LIMIT
    }

    pub fn new(w: i64, h: i64) -> (s: SpriteSize)
        requires
            0 <= w <= SIZE_LIMIT,
            0 <= h <= SIZE_LIMIT,
        ensures
            s.w == w,
            s.h == h,
            s.bounded(),
    {
        SpriteSize { w, h }
    }
}

/// A buffered request to spawn an explosion at a position, recorded during
/// a collision pass and applied at the next barrier.
#[derive(Clone, Copy, PartialEq, Eq, Structural, Debug)]
pub struct ExplosionToSpawn(pub Pos);

/// The timer-driven frame state of an explosion: an elapsed-time
/// accumulator, the fixed frame interval, and the current frame index.
#[derive(Clone, Copy, PartialEq, Eq, Structural, Debug)]
pub struct ExplosionTimer {
    pub elapsed_us: i64,
    pub interval_us: i64,
    pub frame: u32,
}

impl ExplosionTimer {
    /// Accumulator within its cap, interval positive, frame within the sheet.
    pub open spec fn wf(self) -> bool {
        &&& 0 <= self.elapsed_us <= TIMER_CAP_US
        &&& 0 < self.interval_us <= 1_000_000
        &&& self.frame <= EXPLOSION_LENGTH
    }
}

impl Default for ExplosionTimer {
    /// A fresh animation at frame zero with the build-time frame interval.
    fn default() -> (t: Self)
        ensures
            t.elapsed_us == 0,
            t.interval_us == EXPLOSION_INTERVAL_US,
            t.frame == 0,
            t.wf(),
    {
        ExplosionTimer { elapsed_us: 0, interval_us: EXPLOSION_INTERVAL_US, frame: 0 }
    }
}

} // verus!
