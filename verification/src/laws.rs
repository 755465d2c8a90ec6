//! Store-wide laws, stated and proved once over the counting model that
//! every pass contract is written against.

use vstd::prelude::*;
use crate::collision::killed;
use crate::constants::MAX_ENEMIES;
use crate::world::{
    count_enemies, lemma_count_push, lemma_count_update, lemma_counts_nonneg, Entity, World,
};

verus! {

/// The enemy counter is exact: in every well-formed world it equals the
/// number of live enemy-tagged entities, is never negative, and never
/// exceeds the enemy capacity.
pub proof fn lemma_enemy_counter_exact(w: World)
    requires
        w.wf(),
    ensures
        w.enemy_count.count_spec() == count_enemies(w.ents@),
        0 <= w.enemy_count.count_spec() <= MAX_ENEMIES,
{
    lemma_counts_nonneg(w.ents@, w.ents@.len() as int);
}

/// The spawn/destroy round trip: appending a live enemy to the store
/// raises the live-enemy count by one, and destroying that same entity
/// brings the count back to its pre-spawn value, with every component of
/// the destroyed slot removed from observation.
pub proof fn lemma_spawn_destroy_round_trip(s: Seq<Entity>, e: Entity)
    requires
        e.live_enemy(),
    ensures
        count_enemies(s.push(e)) == count_enemies(s) + 1,
        count_enemies(s.push(e).update(s.len() as int, killed(e))) == count_enemies(s),
        !s.push(e).update(s.len() as int, killed(e))[s.len() as int].alive,
{
    lemma_count_push(s, e);
    lemma_count_update(s.push(e), s.len() as int, killed(e));
}

} // verus!
