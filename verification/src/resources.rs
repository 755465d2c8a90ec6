//! Simulation-wide context threaded through the pipeline: viewport, enemy
//! counter, player respawn state, asset handles, input intent, and the
//! coarse run-interval gates.

use vstd::prelude::*;
use crate::components::Pos;
use crate::constants::{
    MAX_ENEMIES, PLAYER_RESPAWN_DELAY_US, TIME_LIMIT_US, WINDOW_LIMIT, WINDOW_MARGIN_MILLI,
};

verus! {

/// The viewport dimensions in milli-units, captured once at startup.
#[derive(Clone, Copy, PartialEq, Eq, Structural, Debug)]
pub struct WindowSize {
    pub width: i64,
    pub height: i64,
}

impl WindowSize {
    /// Dimensions large enough for a formation ellipse and small enough
    /// for exact arithmetic.
    pub open spec fn wf(self) -> bool {
        &&& 500_000 <= self.width <= WINDOW_LIMIT
        &&& 500_000 <= self.height <= WINDOW_LIMIT
    }

    pub fn new(width: i64, height: i64) -> (w: WindowSize)
        requires
            500_000 <= width <= WINDOW_LIMIT,
            500_000 <= height <= WINDOW_LIMIT,
        ensures
            w.width == width,
            w.height == height,
            w.wf(),
    {
        WindowSize { width, height }
    }

    /// The despawn rectangle: the viewport centred at the origin, expanded
    /// by the margin on all four sides.  Exactly on the boundary is inside.
    pub open spec fn contains_spec(self, p: Pos) -> bool {
        &&& p.y <= self.height / 2 + WINDOW_MARGIN_MILLI
        &&& p.y >= -(self.height / 2) - WINDOW_MARGIN_MILLI
        &&& p.x <= self.width / 2 + WINDOW_MARGIN_MILLI
        &&& p.x >= -(self.width / 2) - WINDOW_MARGIN_MILLI
    }

    /// Whether `p` has left the margin-extended viewport; the complement of
    /// `contains_spec`, by strict comparisons only.
    pub fn doesnt_contain(&self, p: &Pos) -> (r: bool)
        requires
            self.wf(),
        ensures
            r == !self.contains_spec(*p),
    {
        let half_h: i64 = ((self.height as u64) / 2) as i64;
        let half_w: i64 = ((self.width as u64) / 2) as i64;
        p.y > half_h + WINDOW_MARGIN_MILLI || p.y < -half_h - WINDOW_MARGIN_MILLI || p.x > half_w
            + WINDOW_MARGIN_MILLI || p.x < -half_w - WINDOW_MARGIN_MILLI
    }
}

/// The live-enemy counter, kept equal to the number of live enemy entities.
#[derive(Clone, Copy, PartialEq, Eq, Structural, Debug)]
pub struct EnemyCount(u32);

impl EnemyCount {
    /// The counter's value.
    pub closed spec fn count_spec(self) -> int {
        self.0 as int
    }

    pub fn increment(&mut self)
        requires
            old(self).count_spec() < u32::MAX,
        ensures
            final(self).count_spec() == old(self).count_spec() + 1,
    {
        self.0 += 1;
    }

    pub fn decrement(&mut self)
        requires
            old(self).count_spec() > 0,
        ensures
            final(self).count_spec() == old(self).count_spec() - 1,
    {
        self.0 -= 1;
    }

    /// Whether another enemy may spawn: the counter is under the capacity.
    pub fn has_availability(&self) -> (r: bool)
        ensures
            r == (self.count_spec() < MAX_ENEMIES),
    {
        self.0 < MAX_ENEMIES
    }

    /// The counter's value, for observers.
    pub fn current(&self) -> (r: u32)
        ensures
            r == self.count_spec(),
    {
        self.0
    }
}

impl Default for EnemyCount {
    /// A counter at zero.
    fn default() -> (c: Self)
        ensures
            c.count_spec() == 0,
    {
        EnemyCount(0)
    }
}

/// The respawn controller's two-state machine: `alive` holds exactly when a
/// player entity is live; `last_shot` records the time of the latest death
/// in microseconds, `None` before any death.
#[derive(Clone, Copy, PartialEq, Eq, Structural, Debug)]
pub struct PlayerState {
    pub alive: bool,
    pub last_shot: Option<i64>,
}

impl PlayerState {
    pub open spec fn wf(self) -> bool {
        match self.last_shot {
            Option::Some(t) => 0 <= t <= TIME_LIMIT_US,
            Option::None => true,
        }
    }

    /// A spawn is due: the player is dead and the cooldown has expired, or
    /// no death has happened yet (the initial spawn).
    pub open spec fn respawn_due(self, now: int) -> bool {
        &&& !self.alive
        &&& match self.last_shot {
            Option::Some(t) => now > t + PLAYER_RESPAWN_DELAY_US,
            Option::None => true,
        }
    }

    /// Record the shot-down event at `time`: Alive to Dead.
    pub fn mark_shot(&mut self, time: i64)
        requires
            0 <= time <= TIME_LIMIT_US,
        ensures
            final(self).alive == false,
            final(self).last_shot == Option::Some(time),
            final(self).wf(),
    {
        self.alive = false;
        self.last_shot = Some(time);
    }

    /// Record the spawn: Dead to Alive, clearing the death record.
    pub fn mark_spawned(&mut self)
        ensures
            final(self).alive == true,
            final(self).last_shot is None,
            final(self).wf(),
    {
        self.alive = true;
        self.last_shot = None;
    }
}

impl Default for PlayerState {
    /// Dead with no prior death, so the first spawn check fires at once.
    fn default() -> (s: Self)
        ensures
            s.alive == false,
            s.last_shot is None,
            s.wf(),
    {
        PlayerState { alive: false, last_shot: None }
    }
}

/// Opaque sprite and sheet handles, attached to entities unexamined so a
/// rendering collaborator can draw them.
#[derive(Clone, Copy, PartialEq, Eq, Structural, Debug)]
pub struct GameTextures {
    pub player: u64,
    pub player_laser: u64,
    pub enemy_1: u64,
    pub enemy_2: u64,
    pub enemy_laser: u64,
    pub explosion: u64,
}

/// The per-tick snapshot of input intent; `fire_pressed` is edge-triggered.
#[derive(Clone, Copy, PartialEq, Eq, Structural, Debug)]
pub struct InputIntent {
    pub move_left: bool,
    pub move_right: bool,
    pub fire_pressed: bool,
}

/// A coarse run-interval gate: lets a pass run at most once per period.
#[derive(Clone, Copy, PartialEq, Eq, Structural, Debug)]
pub struct Cadence {
    pub period_us: i64,
    pub last_run_us: Option<i64>,
}

impl Cadence {
    pub open spec fn wf(self) -> bool {
        &&& 0 < self.period_us <= 1_000_000_000
        &&& match self.last_run_us {
            Option::Some(t) => 0 <= t <= TIME_LIMIT_US,
            Option::None => true,
        }
    }

    /// Whether the pass is due at `now`: either it never fired yet, or a
    /// full period has passed since it last fired.
    pub open spec fn due_spec(self, now: int) -> bool {
        match self.last_run_us {
            Option::Some(t) => now >= t + self.period_us,
            Option::None => true,
        }
    }

    pub fn new(period_us: i64) -> (c: Cadence)
        requires
            0 < period_us <= 1_000_000_000,
        ensures
            c.period_us == period_us,
            c.last_run_us is None,
            c.wf(),
    {
        Cadence { period_us, last_run_us: None }
    }

    /// Decide whether the pass fires at `now`, and note the time if so.
    pub fn due(&mut self, now: i64) -> (r: bool)
        requires
            old(self).wf(),
            0 <= now <= TIME_LIMIT_US,
        ensures
            r == old(self).due_spec(now as int),
            final(self).period_us == old(self).period_us,
            final(self).last_run_us == if r {
                Option::Some(now)
            } else {
                old(self).last_run_us
            },
            final(self).wf(),
    {
        let run: bool = match self.last_run_us {
            Some(t) => now >= t + self.period_us,
            None => true,
        };
        if run {
            self.last_run_us = Some(now);
        }
        run
    }
}

} // verus!
