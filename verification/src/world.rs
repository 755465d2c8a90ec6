//! The entity store: an arena of tagged entities, the live-enemy counter,
//! the respawn state, and the buffered explosion spawn requests recorded
//! during collision passes and applied at the next barrier.
//!
//! The cross-pass invariant `World::wf` ties the counter to the number of
//! live enemy entities, keeps it within capacity, and ties the respawn
//! flag to the presence of exactly one live player.

use vstd::prelude::*;
use crate::components::{ExplosionTimer, ExplosionToSpawn, Pos, Role, SpriteSize, Velocity, Movable};
use crate::constants::{ENEMY_POS_LIMIT, MAX_ENEMIES, MOVE_CLAMP, POS_LIMIT, SCALE_LIMIT};
use crate::formation::Formation;
use crate::resources::{EnemyCount, PlayerState};

verus! {

/// A simulation object: one mutually exclusive role tag plus the optional
/// data components that the role admits.  A destroyed entity keeps its
/// slot with `alive` cleared; no component of a dead entity is observable.
#[derive(Clone, Copy, Debug)]
pub struct Entity {
    pub role: Role,
    pub pos: Pos,
    pub layer: i64,
    pub scale: i64,
    pub size: SpriteSize,
    pub vel: Option<Velocity>,
    pub movable: Option<Movable>,
    pub formation: Option<Formation>,
    pub timer: Option<ExplosionTimer>,
    pub sprite: u64,
    pub alive: bool,
}

impl Entity {
    /// Whether the boundary-despawn check applies.
    pub open spec fn auto_despawns(self) -> bool {
        match self.movable {
            Option::Some(m) => m.auto_despawn_spec(),
            Option::None => false,
        }
    }

    /// Whether the motion integrator moves this entity: it carries both
    /// velocity and the movable flag, and no formation path overrides it.
    pub open spec fn integrates(self) -> bool {
        &&& self.vel is Some
        &&& self.movable is Some
        &&& self.formation is None
    }

    /// Component-presence discipline and bounds: a formation path exactly
    /// on enemies, an animation timer exactly on explosions, velocity and
    /// movable exactly where the integrator expects them, and the player
    /// exempt from boundary despawn.
    pub open spec fn wf(self) -> bool {
        &&& self.pos.in_box(POS_LIMIT as int)
        &&& 0 <= self.scale <= SCALE_LIMIT
        &&& self.size.bounded()
        &&& match self.vel {
            Option::Some(v) => v.bounded(),
            Option::None => true,
        }
        &&& (self.role.is_enemy() <==> self.formation is Some)
        &&& (self.role.is_explosion() <==> self.timer is Some)
        &&& match self.formation {
            Option::Some(f) => f.wf(),
            Option::None => true,
        }
        &&& match self.timer {
            Option::Some(t) => t.wf(),
            Option::None => true,
        }
        &&& (self.movable is Some ==> self.vel is Some)
        &&& (self.role.is_enemy() ==> self.vel is None && self.movable is None)
        &&& (self.role.is_player() ==> self.vel is Some && self.movable is Some
            && !self.auto_despawns())
        &&& (self.role.is_explosion() ==> self.vel is None && self.movable is None)
        &&& (self.role.is_enemy() ==> self.pos.in_box(ENEMY_POS_LIMIT as int))
        &&& (self.role.is_player() ==> self.pos.in_box(MOVE_CLAMP as int))
        &&& (self.alive ==> match self.timer {
            Option::Some(t) => t.frame < crate::constants::EXPLOSION_LENGTH,
            Option::None => true,
        })
    }

    pub open spec fn live_enemy(self) -> bool {
        self.alive && self.role.is_enemy()
    }

    pub open spec fn live_player(self) -> bool {
        self.alive && self.role.is_player()
    }

    pub open spec fn live_player_laser(self) -> bool {
        self.alive && self.role.is_player_laser()
    }

    pub open spec fn live_enemy_laser(self) -> bool {
        self.alive && self.role.is_enemy_laser()
    }

    pub open spec fn live_explosion(self) -> bool {
        self.alive && self.role.is_explosion()
    }
}

/// 1 for a live enemy, else 0.
pub open spec fn enemy_contrib(e: Entity) -> int {
    if e.live_enemy() {
        1
    } else {
        0
    }
}

/// 1 for a live player, else 0.
pub open spec fn player_contrib(e: Entity) -> int {
    if e.live_player() {
        1
    } else {
        0
    }
}

/// Live enemies among the first `n` slots.
pub open spec fn count_enemies_upto(s: Seq<Entity>, n: int) -> int
    decreases n,
{
    if n <= 0 {
        0
    } else {
        count_enemies_upto(s, n - 1) + enemy_contrib(s[n - 1])
    }
}

/// Live players among the first `n` slots.
pub open spec fn count_players_upto(s: Seq<Entity>, n: int) -> int
    decreases n,
{
    if n <= 0 {
        0
    } else {
        count_players_upto(s, n - 1) + player_contrib(s[n - 1])
    }
}

/// Live enemies in the store.
pub open spec fn count_enemies(s: Seq<Entity>) -> int {
    count_enemies_upto(s, s.len() as int)
}

/// Live players in the store.
pub open spec fn count_players(s: Seq<Entity>) -> int {
    count_players_upto(s, s.len() as int)
}

/// Both counts lie between 0 and `n`.
pub proof fn lemma_counts_nonneg(s: Seq<Entity>, n: int)
    requires
        0 <= n <= s.len(),
    ensures
        0 <= count_enemies_upto(s, n) <= n,
        0 <= count_players_upto(s, n) <= n,
    decreases n,
{
    if n > 0 {
        lemma_counts_nonneg(s, n - 1);
    }
}

/// Stores whose slots contribute alike count alike.
pub proof fn lemma_counts_pointwise(s1: Seq<Entity>, s2: Seq<Entity>, n: int)
    requires
        0 <= n <= s1.len(),
        n <= s2.len(),
        forall|i: int|
            0 <= i < n ==> enemy_contrib(#[trigger] s2[i]) == enemy_contrib(s1[i])
                && player_contrib(s2[i]) == player_contrib(s1[i]),
    ensures
        count_enemies_upto(s2, n) == count_enemies_upto(s1, n),
        count_players_upto(s2, n) == count_players_upto(s1, n),
    decreases n,
{
    if n > 0 {
        lemma_counts_pointwise(s1, s2, n - 1);
    }
}

/// Appending a slot adds exactly its contribution.
pub proof fn lemma_count_push(s: Seq<Entity>, e: Entity)
    ensures
        count_enemies(s.push(e)) == count_enemies(s) + enemy_contrib(e),
        count_players(s.push(e)) == count_players(s) + player_contrib(e),
{
    lemma_counts_pointwise(s, s.push(e), s.len() as int);
    assert(s.push(e)[s.len() as int] == e);
}

/// Replacing one slot shifts the counts by the contribution difference.
pub proof fn lemma_count_update_upto(s: Seq<Entity>, i: int, e: Entity, n: int)
    requires
        0 <= i < s.len(),
        0 <= n <= s.len(),
    ensures
        count_enemies_upto(s.update(i, e), n) == count_enemies_upto(s, n) + if i < n {
            enemy_contrib(e) - enemy_contrib(s[i])
        } else {
            0
        },
        count_players_upto(s.update(i, e), n) == count_players_upto(s, n) + if i < n {
            player_contrib(e) - player_contrib(s[i])
        } else {
            0
        },
    decreases n,
{
    if n > 0 {
        lemma_count_update_upto(s, i, e, n - 1);
    }
}

/// Replacing one slot shifts the counts by the contribution difference.
pub proof fn lemma_count_update(s: Seq<Entity>, i: int, e: Entity)
    requires
        0 <= i < s.len(),
    ensures
        count_enemies(s.update(i, e)) == count_enemies(s) + enemy_contrib(e) - enemy_contrib(
            s[i],
        ),
        count_players(s.update(i, e)) == count_players(s) + player_contrib(e) - player_contrib(
            s[i],
        ),
{
    lemma_count_update_upto(s, i, e, s.len() as int);
}

/// A store whose tail holds no live enemy or player counts by its prefix.
pub proof fn lemma_count_suffix_zero(s: Seq<Entity>, n: int)
    requires
        0 <= n <= s.len(),
        forall|j: int| n <= j < s.len() ==> !(#[trigger] s[j]).live_enemy() && !s[j].live_player(),
    ensures
        count_enemies(s) == count_enemies_upto(s, n),
        count_players(s) == count_players_upto(s, n),
    decreases s.len() - n,
{
    if n < s.len() {
        lemma_count_suffix_zero(s, n + 1);
    }
}

/// Longer prefixes never count fewer.
pub proof fn lemma_counts_mono(s: Seq<Entity>, m: int, n: int)
    requires
        0 <= m <= n <= s.len(),
    ensures
        count_enemies_upto(s, m) <= count_enemies_upto(s, n),
        count_players_upto(s, m) <= count_players_upto(s, n),
    decreases n - m,
{
    if m < n {
        lemma_counts_mono(s, m, n - 1);
    }
}

/// A store counting no live player holds none.
pub proof fn lemma_no_players(s: Seq<Entity>)
    requires
        count_players(s) == 0,
    ensures
        forall|k: int| 0 <= k < s.len() ==> !(#[trigger] s[k]).live_player(),
{
    assert forall|k: int| 0 <= k < s.len() implies !(#[trigger] s[k]).live_player() by {
        if s[k].live_player() {
            lemma_counts_nonneg(s, k);
            lemma_counts_mono(s, k + 1, s.len() as int);
        }
    }
}

/// Two distinct live players make the player count at least two.
pub proof fn lemma_two_players(s: Seq<Entity>, a: int, b: int)
    requires
        0 <= a < b < s.len(),
        s[a].live_player(),
        s[b].live_player(),
    ensures
        count_players(s) >= 2,
{
    lemma_counts_nonneg(s, a);
    lemma_counts_mono(s, a + 1, b);
    lemma_counts_mono(s, b + 1, s.len() as int);
}

/// The entity store with the cross-pass shared state: the live-enemy
/// counter, the respawn state machine, and the buffered explosion spawn
/// requests awaiting the next barrier.
pub struct World {
    pub ents: Vec<Entity>,
    pub enemy_count: EnemyCount,
    pub player: PlayerState,
    pub pending: Vec<ExplosionToSpawn>,
}

impl World {
    pub open spec fn ents_wf(self) -> bool {
        forall|i: int| 0 <= i < self.ents@.len() ==> (#[trigger] self.ents@[i]).wf()
    }

    /// The cross-pass invariant: every entity well formed, the counter
    /// equal to the number of live enemies and within capacity, the
    /// respawn flag tied to exactly one live player, and every buffered
    /// spawn request in range.
    pub open spec fn wf(self) -> bool {
        &&& self.ents_wf()
        &&& self.enemy_count.count_spec() == count_enemies(self.ents@)
        &&& self.enemy_count.count_spec() <= MAX_ENEMIES
        &&& count_players(self.ents@) == if self.player.alive {
            1int
        } else {
            0int
        }
        &&& self.player.wf()
        &&& forall|k: int|
            0 <= k < self.pending@.len() ==> (#[trigger] self.pending@[k]).0.in_box(
                POS_LIMIT as int,
            )
    }

    /// An empty store: no entities, counter zero, player dead with no
    /// prior death, nothing pending.
    pub fn new() -> (w: World)
        ensures
            w.wf(),
            w.ents@.len() == 0,
            w.pending@.len() == 0,
            w.enemy_count.count_spec() == 0,
            !w.player.alive,
            w.player.last_shot is None,
    {
        World {
            ents: Vec::new(),
            enemy_count: EnemyCount::default(),
            player: PlayerState::default(),
            pending: Vec::new(),
        }
    }

    /// Append a freshly constructed entity; counter bookkeeping is the
    /// calling pass's duty.
    pub fn spawn(&mut self, e: Entity) -> (id: usize)
        requires
            old(self).ents@.len() < usize::MAX,
        ensures
            final(self).ents@ == old(self).ents@.push(e),
            final(self).enemy_count == old(self).enemy_count,
            final(self).player == old(self).player,
            final(self).pending@ == old(self).pending@,
            id == old(self).ents@.len(),
    {
        let id = self.ents.len();
        self.ents.push(e);
        id
    }

    /// Mark the slot dead, removing every component from observation;
    /// a no-op on an already dead slot.  Counter bookkeeping is the
    /// calling pass's duty.
    pub fn kill(&mut self, i: usize)
        requires
            i < old(self).ents@.len(),
        ensures
            final(self).ents@ == old(self).ents@.update(
                i as int,
                Entity { alive: false, ..old(self).ents@[i as int] },
            ),
            final(self).enemy_count == old(self).enemy_count,
            final(self).player == old(self).player,
            final(self).pending@ == old(self).pending@,
    {
        let mut e = self.ents[i];
        e.alive = false;
        vstd::std_specs::core::index_set(&mut self.ents, i, e);
    }
}

} // verus!
