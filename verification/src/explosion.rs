//! Explosion passes: turning buffered spawn requests into explosion
//! entities at the barrier, and the timer-driven frame advance with
//! terminal destruction after the last frame.

use vstd::prelude::*;
use crate::components::{Explosion, ExplosionTimer, Pos, Role, SpriteSize};
use crate::constants::{
    EXPLOSION_CELL, EXPLOSION_INTERVAL_US, EXPLOSION_LENGTH, TIMER_CAP_US,
};
use crate::fixed::min_i;
use crate::resources::GameTextures;
use crate::world::{
    count_enemies, count_players, enemy_contrib, lemma_count_push, lemma_count_suffix_zero,
    lemma_counts_pointwise, player_contrib, Entity, World,
};

verus! {

/// One tick of the animation timer: accumulate the elapsed time (clamped
/// at the backlog cap); on crossing the frame interval, advance the frame
/// by one and carry the remainder rather than zeroing the accumulator.
pub open spec fn ticked_timer(t: ExplosionTimer, delta: int) -> ExplosionTimer {
    let acc = min_i(t.elapsed_us + delta, TIMER_CAP_US as int);
    if acc >= t.interval_us {
        ExplosionTimer {
            elapsed_us: (acc - t.interval_us) as i64,
            interval_us: t.interval_us,
            frame: (t.frame + 1) as u32,
        }
    } else {
        ExplosionTimer { elapsed_us: acc as i64, interval_us: t.interval_us, frame: t.frame }
    }
}

/// What one animation tick makes of an entity: a live explosion's timer
/// accumulates, its frame may advance, and reaching the frame count of
/// the sheet destroys it; every other entity is untouched.
pub open spec fn animation_result(e: Entity, delta: int) -> Entity {
    match e.timer {
        Option::Some(t) => {
            if e.alive {
                let t2 = ticked_timer(t, delta);
                Entity {
                    timer: Option::Some(t2),
                    alive: t2.frame < EXPLOSION_LENGTH,
                    ..e
                }
            } else {
                e
            }
        },
        Option::None => e,
    }
}

/// Apply every buffered explosion spawn request: each becomes a live
/// explosion entity at its recorded position, at frame zero with the
/// build-time frame interval; the buffer is drained.
pub fn explosion_to_spawn_system(w: &mut World, textures: &GameTextures)
    requires
        old(w).wf(),
        old(w).ents@.len() + old(w).pending@.len() <= usize::MAX,
    ensures
        final(w).wf(),
        final(w).pending@.len() == 0,
        final(w).enemy_count == old(w).enemy_count,
        final(w).player == old(w).player,
        final(w).ents@.len() == old(w).ents@.len() + old(w).pending@.len(),
        forall|j: int| 0 <= j < old(w).ents@.len() ==> final(w).ents@[j] == old(w).ents@[j],
        forall|j: int|
            old(w).ents@.len() <= j < final(w).ents@.len() ==> {
                &&& (#[trigger] final(w).ents@[j]).live_explosion()
                &&& final(w).ents@[j].pos == old(w).pending@[j - old(w).ents@.len()].0
                &&& final(w).ents@[j].timer == Option::Some(
                    ExplosionTimer {
                        elapsed_us: 0,
                        interval_us: EXPLOSION_INTERVAL_US,
                        frame: 0,
                    },
                )
                &&& final(w).ents@[j].size == (SpriteSize {
                    w: EXPLOSION_CELL,
                    h: EXPLOSION_CELL,
                })
                &&& final(w).ents@[j].scale == 1_000
                &&& final(w).ents@[j].layer == 10_000
                &&& final(w).ents@[j].sprite == textures.explosion
            },
{
    let ghost s0 = w.ents@;
    let ghost p0 = w.pending@;
    let ghost w0 = *w;
    let n = w.ents.len();
    let m = w.pending.len();
    let mut k: usize = 0;
    while k < m
        invariant
            k <= m,
            n == s0.len(),
            m == p0.len(),
            n + m <= usize::MAX,
            w.pending@ == p0,
            w.ents@.len() == n + k,
            forall|j: int| 0 <= j < n ==> (#[trigger] s0[j]).wf(),
            forall|j: int| 0 <= j < n ==> w.ents@[j] == s0[j],
            forall|p: int| 0 <= p < m ==> (#[trigger] p0[p]).0.in_box(
                crate::constants::POS_LIMIT as int,
            ),
            forall|j: int|
                n <= j < w.ents@.len() ==> {
                    &&& (#[trigger] w.ents@[j]).live_explosion()
                    &&& w.ents@[j].wf()
                    &&& w.ents@[j].pos == p0[j - n].0
                    &&& w.ents@[j].timer == Option::Some(
                        ExplosionTimer {
                            elapsed_us: 0,
                            interval_us: EXPLOSION_INTERVAL_US,
                            frame: 0,
                        },
                    )
                    &&& w.ents@[j].size == (SpriteSize {
                        w: EXPLOSION_CELL,
                        h: EXPLOSION_CELL,
                    })
                    &&& w.ents@[j].scale == 1_000
                    &&& w.ents@[j].layer == 10_000
                    &&& w.ents@[j].sprite == textures.explosion
                },
            w.enemy_count == w0.enemy_count,
            w.player == w0.player,
        decreases m - k,
    {
        let r = w.pending[k];
        let e = Entity {
            role: Role::Explosion(Explosion),
            pos: r.0,
            layer: 10_000,
            scale: 1_000,
            size: SpriteSize::new(EXPLOSION_CELL, EXPLOSION_CELL),
            vel: None,
            movable: None,
            formation: None,
            timer: Some(
                ExplosionTimer { elapsed_us: 0, interval_us: EXPLOSION_INTERVAL_US, frame: 0 },
            ),
            sprite: textures.explosion,
            alive: true,
        };
        let ghost before = w.ents@;
        w.ents.push(e);
        proof {
            lemma_count_push(before, e);
        }
        k += 1;
    }
    w.pending.clear();
    proof {
        assert forall|j: int| 0 <= j < w.ents@.len() implies (#[trigger] w.ents@[j]).wf() by {
            if j < n {
                assert(w.ents@[j] == s0[j]);
                assert(s0[j].wf());
            }
        }
        assert forall|j: int|
            n <= j < w.ents@.len() implies !(#[trigger] w.ents@[j]).live_enemy()
                && !w.ents@[j].live_player() by {
            assert(w.ents@[j].live_explosion());
        }
        lemma_counts_pointwise(s0, w.ents@, n as int);
        lemma_count_suffix_zero(w.ents@, n as int);
    }
}

/// One tick of the explosion animator over every live explosion.
pub fn explosion_animation_system(w: &mut World, delta_us: i64)
    requires
        old(w).wf(),
        0 <= delta_us <= TIMER_CAP_US,
    ensures
        final(w).wf(),
        final(w).ents@.len() == old(w).ents@.len(),
        final(w).enemy_count == old(w).enemy_count,
        final(w).player == old(w).player,
        final(w).pending@ == old(w).pending@,
        forall|i: int|
            0 <= i < old(w).ents@.len() ==> final(w).ents@[i] == animation_result(
                #[trigger] old(w).ents@[i],
                delta_us as int,
            ),
{
    let ghost s0 = w.ents@;
    let ghost w0 = *w;
    let n = w.ents.len();
    let mut i: usize = 0;
    while i < n
        invariant
            i <= n,
            n == s0.len(),
            w.ents@.len() == n,
            0 <= delta_us <= TIMER_CAP_US,
            forall|j: int| 0 <= j < n ==> (#[trigger] s0[j]).wf(),
            forall|j: int| i <= j < n ==> w.ents@[j] == s0[j],
            forall|j: int|
                0 <= j < i ==> w.ents@[j] == animation_result(#[trigger] s0[j], delta_us as int),
            forall|j: int| 0 <= j < i ==> (#[trigger] w.ents@[j]).wf(),
            w.enemy_count == w0.enemy_count,
            w.player == w0.player,
            w.pending@ == w0.pending@,
        decreases n - i,
    {
        let e = w.ents[i];
        if e.alive {
            match e.timer {
                Some(t) => {
                    let raw: i64 = t.elapsed_us + delta_us;
                    let acc: i64 = if raw > TIMER_CAP_US {
                        TIMER_CAP_US
                    } else {
                        raw
                    };
                    let t2: ExplosionTimer = if acc >= t.interval_us {
                        ExplosionTimer {
                            elapsed_us: acc - t.interval_us,
                            interval_us: t.interval_us,
                            frame: t.frame + 1,
                        }
                    } else {
                        ExplosionTimer {
                            elapsed_us: acc,
                            interval_us: t.interval_us,
                            frame: t.frame,
                        }
                    };
                    let mut e2 = e;
                    e2.timer = Some(t2);
                    if t2.frame >= EXPLOSION_LENGTH {
                        e2.alive = false;
                    }
                    vstd::std_specs::core::index_set(&mut w.ents, i, e2);
                    proof {
                        assert(w.ents@[i as int] == animation_result(s0[i as int], delta_us as int));
                        assert(w.ents@[i as int].wf());
                    }
                },
                None => {},
            }
        }
        i += 1;
    }
    proof {
        assert forall|j: int| 0 <= j < n implies enemy_contrib(w.ents@[j]) == enemy_contrib(
            s0[j],
        ) && player_contrib(w.ents@[j]) == player_contrib(s0[j]) by {
            assert(w.ents@[j] == animation_result(s0[j], delta_us as int));
        }
        lemma_counts_pointwise(s0, w.ents@, n as int);
    }
}

} // verus!
