//! The motion integrator: advances every velocity-carrying movable entity
//! by its velocity scaled to one tick, then destroys auto-despawning
//! entities that have left the margin-extended viewport.

use vstd::prelude::*;
use crate::components::Pos;
use crate::constants::{MOVE_CLAMP, POS_LIMIT, STEP_SPEED_MILLI};
use crate::fixed::{clamp_spec, scale_milli, scale_milli_spec, clamp_i64};
use crate::resources::WindowSize;
use crate::world::{
    count_enemies, count_players, enemy_contrib, lemma_counts_pointwise, player_contrib, Entity,
    World,
};

verus! {

/// The position one integration tick gives an entity the integrator moves.
pub open spec fn moved_pos(e: Entity) -> Pos {
    match e.vel {
        Option::Some(v) => Pos {
            x: clamp_spec(e.pos.x + scale_milli_spec(v.x as int, STEP_SPEED_MILLI as int),
                MOVE_CLAMP as int) as i64,
            y: clamp_spec(e.pos.y + scale_milli_spec(v.y as int, STEP_SPEED_MILLI as int),
                MOVE_CLAMP as int) as i64,
        },
        Option::None => e.pos,
    }
}

/// What one integration tick makes of an entity: a live entity carrying
/// velocity and the movable flag (and no formation path) moves; if it
/// auto-despawns and the new position lies outside the margin-extended
/// viewport, it is destroyed; every other entity is untouched.
pub open spec fn motion_result(e: Entity, win: WindowSize) -> Entity {
    if e.alive && e.integrates() {
        let p = moved_pos(e);
        if e.auto_despawns() && !win.contains_spec(p) {
            Entity { pos: p, alive: false, ..e }
        } else {
            Entity { pos: p, ..e }
        }
    } else {
        e
    }
}

/// One pass of the motion integrator over the store.
///
/// Afterwards every auto-despawning entity still live sits strictly
/// inside the margin-extended viewport, or it no longer exists.
pub fn movement_system(w: &mut World, win: &WindowSize)
    requires
        old(w).wf(),
        win.wf(),
    ensures
        final(w).wf(),
        final(w).ents@.len() == old(w).ents@.len(),
        final(w).enemy_count == old(w).enemy_count,
        final(w).player == old(w).player,
        final(w).pending@ == old(w).pending@,
        forall|i: int|
            0 <= i < old(w).ents@.len() ==> final(w).ents@[i] == motion_result(
                #[trigger] old(w).ents@[i],
                *win,
            ),
        forall|i: int|
            0 <= i < final(w).ents@.len() && (#[trigger] final(w).ents@[i]).alive
                && final(w).ents@[i].auto_despawns() ==> win.contains_spec(final(w).ents@[i].pos),
{
    let ghost s0 = w.ents@;
    let ghost w0 = *w;
    let n = w.ents.len();
    let mut i: usize = 0;
    while i < n
        invariant
            i <= n,
            n == s0.len(),
            w.ents@.len() == n,
            win.wf(),
            forall|j: int| 0 <= j < n ==> (#[trigger] s0[j]).wf(),
            forall|j: int| i <= j < n ==> w.ents@[j] == s0[j],
            forall|j: int| 0 <= j < i ==> w.ents@[j] == motion_result(#[trigger] s0[j], *win),
            w.enemy_count == w0.enemy_count,
            w.player == w0.player,
            w.pending@ == w0.pending@,
        decreases n - i,
    {
        let e = w.ents[i];
        let mut e2 = e;
        if e.alive && e.formation.is_none() {
            match (e.vel, e.movable) {
                (Some(v), Some(m)) => {
                    let nx = clamp_i64(
                        e.pos.x + scale_milli(v.x, STEP_SPEED_MILLI),
                        MOVE_CLAMP,
                    );
                    let ny = clamp_i64(
                        e.pos.y + scale_milli(v.y, STEP_SPEED_MILLI),
                        MOVE_CLAMP,
                    );
                    let p = Pos { x: nx, y: ny };
                    e2.pos = p;
                    if m.should_auto_despawn() && win.doesnt_contain(&p) {
                        e2.alive = false;
                    }
                },
                _ => {},
            }
        }
        vstd::std_specs::core::index_set(&mut w.ents, i, e2);
        proof {
            assert(w.ents@[i as int] == motion_result(s0[i as int], *win));
        }
        i += 1;
    }
    proof {
        assert forall|j: int| 0 <= j < n implies enemy_contrib(w.ents@[j]) == enemy_contrib(
            s0[j],
        ) && player_contrib(w.ents@[j]) == player_contrib(s0[j]) by {
            assert(w.ents@[j] == motion_result(s0[j], *win));
            assert(s0[j].wf());
        }
        lemma_counts_pointwise(s0, w.ents@, n as int);
        assert(count_enemies(w.ents@) == count_enemies(s0));
        assert(count_players(w.ents@) == count_players(s0));
        assert forall|j: int| 0 <= j < n implies (#[trigger] w.ents@[j]).wf() by {
            assert(w.ents@[j] == motion_result(s0[j], *win));
            assert(s0[j].wf());
        }
        assert forall|j: int|
            0 <= j < n && (#[trigger] w.ents@[j]).alive && w.ents@[j].auto_despawns() implies win
            .contains_spec(w.ents@[j].pos) by {
            assert(w.ents@[j] == motion_result(s0[j], *win));
            assert(s0[j].wf());
        }
    }
}

} // verus!
