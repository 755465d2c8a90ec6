//! Collision resolution: strict axis-aligned bounding-box overlap between
//! projectiles and their targets, with destruction, counter bookkeeping and
//! buffered explosion spawns.
//!
//! Both passes follow the first-match-wins discipline: enumeration order
//! decides which collision is processed when an entity overlaps several
//! counterparts in one tick, and every pair involving an already destroyed
//! entity is skipped.

use vstd::prelude::*;
use crate::components::{ExplosionToSpawn, Pos, Role};
use crate::constants::{POS_LIMIT, TIME_LIMIT_US};
use crate::fixed::{abs_i, scale_milli, scale_milli_spec};
use crate::world::{
    count_enemies, count_players, count_players_upto, lemma_count_update, lemma_counts_mono,
    lemma_counts_nonneg, lemma_two_players, Entity, World,
};

verus! {

/// The collision width of an entity: its sprite width under its transform
/// scale, in milli-units.
pub open spec fn scaled_w(e: Entity) -> int {
    scale_milli_spec(e.size.w as int, e.scale as int)
}

/// The collision height of an entity.
pub open spec fn scaled_h(e: Entity) -> int {
    scale_milli_spec(e.size.h as int, e.scale as int)
}

/// Strict overlap of two boxes centred at `pa` and `pb` with full extents
/// `(wa, ha)` and `(wb, hb)`: the centre gap is under half the extent sum
/// on both axes.  Exactly touching boxes do not collide.
pub open spec fn overlap_spec(pa: Pos, wa: int, ha: int, pb: Pos, wb: int, hb: int) -> bool {
    &&& 2 * abs_i(pa.x - pb.x) < wa + wb
    &&& 2 * abs_i(pa.y - pb.y) < ha + hb
}

/// Whether the scaled bounding boxes of two entities overlap.
pub open spec fn ent_collides(a: Entity, b: Entity) -> bool {
    overlap_spec(a.pos, scaled_w(a), scaled_h(a), b.pos, scaled_w(b), scaled_h(b))
}

/// Two entities at identical centres with extents that are anywhere
/// positive always register a collision.
pub proof fn lemma_collides_identical_centres(a: Entity, b: Entity)
    requires
        a.pos == b.pos,
        scaled_w(a) + scaled_w(b) > 0,
        scaled_h(a) + scaled_h(b) > 0,
    ensures
        ent_collides(a, b),
{
}

/// Boxes whose centres are separated by more than half the sum of their
/// extents on either axis never register a collision.
pub proof fn lemma_collides_separated(a: Entity, b: Entity)
    requires
        2 * abs_i(a.pos.x - b.pos.x) > scaled_w(a) + scaled_w(b) || 2 * abs_i(a.pos.y - b.pos.y)
            > scaled_h(a) + scaled_h(b),
    ensures
        !ent_collides(a, b),
{
}

/// The overlap test does not depend on the order of its operands.
pub proof fn lemma_collides_symmetric(a: Entity, b: Entity)
    ensures
        ent_collides(a, b) == ent_collides(b, a),
{
}

/// The strict overlap test on the scaled bounding boxes of two entities.
pub fn collide(a: &Entity, b: &Entity) -> (r: bool)
    requires
        a.wf(),
        b.wf(),
    ensures
        r == ent_collides(*a, *b),
{
    let wa = scale_milli(a.size.w, a.scale);
    let ha = scale_milli(a.size.h, a.scale);
    let wb = scale_milli(b.size.w, b.scale);
    let hb = scale_milli(b.size.h, b.scale);
    proof {
        assert((a.size.w as int) * a.scale <= 2_000_000_000 && (a.size.h as int) * a.scale
            <= 2_000_000_000 && (b.size.w as int) * b.scale <= 2_000_000_000 && (b.size.h as int)
            * b.scale <= 2_000_000_000) by (nonlinear_arith)
            requires
                0 <= a.size.w <= 1_000_000,
                0 <= a.size.h <= 1_000_000,
                0 <= b.size.w <= 1_000_000,
                0 <= b.size.h <= 1_000_000,
                0 <= a.scale <= 2_000,
                0 <= b.scale <= 2_000,
        ;
        assert(0 <= wa <= 2_000_000 && 0 <= ha <= 2_000_000);
        assert(0 <= wb <= 2_000_000 && 0 <= hb <= 2_000_000);
    }
    let dx = a.pos.x - b.pos.x;
    let dy = a.pos.y - b.pos.y;
    let adx: i64 = if dx >= 0 {
        dx
    } else {
        -dx
    };
    let ady: i64 = if dy >= 0 {
        dy
    } else {
        -dy
    };
    2 * adx < wa + wb && 2 * ady < ha + hb
}

/// `e` with every component removed from observation.
pub open spec fn killed(e: Entity) -> Entity {
    Entity { alive: false, ..e }
}

/// The slot discipline of a collision pass: each slot is kept or killed,
/// live slots are untouched, and only the two stated roles die.
pub open spec fn pass_keeps_slots(s0: Seq<Entity>, s: Seq<Entity>) -> bool {
    &&& s.len() == s0.len()
    &&& forall|k: int| 0 <= k < s0.len() ==> (#[trigger] s[k]) == s0[k] || s[k] == killed(s0[k])
    &&& forall|k: int| 0 <= k < s0.len() && (#[trigger] s[k]).alive ==> s[k] == s0[k]
}

/// Player projectiles live in `before` that `after` holds destroyed,
/// among the first `n` slots.
pub open spec fn lasers_killed_upto(before: Seq<Entity>, after: Seq<Entity>, n: int) -> int
    decreases n,
{
    if n <= 0 {
        0
    } else {
        lasers_killed_upto(before, after, n - 1) + if before[n - 1].live_player_laser()
            && !after[n - 1].alive {
            1int
        } else {
            0int
        }
    }
}

/// Enemies live in `before` that `after` holds destroyed, among the
/// first `n` slots.
pub open spec fn enemies_killed_upto(before: Seq<Entity>, after: Seq<Entity>, n: int) -> int
    decreases n,
{
    if n <= 0 {
        0
    } else {
        enemies_killed_upto(before, after, n - 1) + if before[n - 1].live_enemy() && !after[n
            - 1].alive {
            1int
        } else {
            0int
        }
    }
}

/// Player projectiles a pass destroyed.
pub open spec fn lasers_killed(before: Seq<Entity>, after: Seq<Entity>) -> int {
    lasers_killed_upto(before, after, before.len() as int)
}

/// Enemies a pass destroyed.
pub open spec fn enemies_killed(before: Seq<Entity>, after: Seq<Entity>) -> int {
    enemies_killed_upto(before, after, before.len() as int)
}

/// Before anything is destroyed, both tallies are zero.
proof fn lemma_killed_counts_refl(s: Seq<Entity>, n: int)
    requires
        0 <= n <= s.len(),
    ensures
        lasers_killed_upto(s, s, n) == 0,
        enemies_killed_upto(s, s, n) == 0,
    decreases n,
{
    if n > 0 {
        lemma_killed_counts_refl(s, n - 1);
    }
}

/// Replacing one slot of `after` shifts each tally by the contribution
/// difference at that slot.
proof fn lemma_killed_counts_update(
    before: Seq<Entity>,
    after: Seq<Entity>,
    i: int,
    e: Entity,
    n: int,
)
    requires
        before.len() == after.len(),
        0 <= i < after.len(),
        0 <= n <= after.len(),
    ensures
        lasers_killed_upto(before, after.update(i, e), n) == lasers_killed_upto(before, after, n)
            + if i < n {
            (if before[i].live_player_laser() && !e.alive {
                1int
            } else {
                0int
            }) - (if before[i].live_player_laser() && !after[i].alive {
                1int
            } else {
                0int
            })
        } else {
            0int
        },
        enemies_killed_upto(before, after.update(i, e), n) == enemies_killed_upto(before, after, n)
            + if i < n {
            (if before[i].live_enemy() && !e.alive {
                1int
            } else {
                0int
            }) - (if before[i].live_enemy() && !after[i].alive {
                1int
            } else {
                0int
            })
        } else {
            0int
        },
    decreases n,
{
    if n > 0 {
        lemma_killed_counts_update(before, after, i, e, n - 1);
    }
}

/// Pass one, player projectiles against enemies: each overlapping pair is
/// resolved by destroying both, decrementing the enemy counter, and
/// buffering an explosion spawn at the destroyed enemy's position; first
/// match wins, and no live overlapping pair survives the pass.
#[verifier::rlimit(100)]
pub fn player_laser_hit_enemy_system(w: &mut World)
    requires
        old(w).wf(),
    ensures
        final(w).wf(),
        pass_keeps_slots(old(w).ents@, final(w).ents@),
        final(w).player == old(w).player,
        final(w).enemy_count.count_spec() <= old(w).enemy_count.count_spec(),
        forall|k: int|
            0 <= k < old(w).ents@.len() && old(w).ents@[k].alive && !(#[trigger] final(w).ents@[k]).alive ==> old(w).ents@[k].live_player_laser() || old(w).ents@[k].live_enemy(),
        // detection is complete: no overlapping live pair remains
        forall|a: int, b: int|
            0 <= a < final(w).ents@.len() && 0 <= b < final(w).ents@.len() && (#[trigger] final(w).ents@[a]).live_player_laser() && (#[trigger] final(w).ents@[b]).live_enemy()
                ==> !ent_collides(old(w).ents@[a], old(w).ents@[b]),
        // destruction is paired: collisions destroy both members, so the
        // pass fells exactly as many projectiles as enemies
        lasers_killed(old(w).ents@, final(w).ents@) == enemies_killed(old(w).ents@, final(w).ents@),
        // destruction is sound: whatever died was in an overlapping pair
        forall|k: int|
            0 <= k < old(w).ents@.len() && (#[trigger] old(w).ents@[k]).live_player_laser()
                && !final(w).ents@[k].alive ==> exists|j: int|
                0 <= j < old(w).ents@.len() && (#[trigger] old(w).ents@[j]).live_enemy()
                    && ent_collides(old(w).ents@[k], old(w).ents@[j]),
        forall|k: int|
            0 <= k < old(w).ents@.len() && (#[trigger] old(w).ents@[k]).live_enemy() && !final(w).ents@[k].alive ==> exists|j: int|
                0 <= j < old(w).ents@.len() && (#[trigger] old(w).ents@[j]).live_player_laser()
                    && ent_collides(old(w).ents@[j], old(w).ents@[k]),
        // each destroyed enemy has an explosion spawn buffered at its place,
        // one per counter decrement
        old(w).pending@.len() <= final(w).pending@.len(),
        final(w).pending@.len() - old(w).pending@.len() == old(w).enemy_count.count_spec()
            - final(w).enemy_count.count_spec(),
        final(w).pending@.subrange(0, old(w).pending@.len() as int) == old(w).pending@,
        forall|k: int|
            0 <= k < old(w).ents@.len() && (#[trigger] old(w).ents@[k]).live_enemy() && !final(w).ents@[k].alive ==> exists|p: int|
                old(w).pending@.len() <= p < final(w).pending@.len() && final(w).pending@[p].0
                    == old(w).ents@[k].pos,
{
    let ghost s0 = w.ents@;
    let ghost w0 = *w;
    let ghost p0 = w.pending@;
    let n = w.ents.len();
    proof {
        lemma_killed_counts_refl(s0, n as int);
    }
    let mut li: usize = 0;
    while li < n
        invariant
            li <= n,
            n == s0.len(),
            w.ents@.len() == n,
            forall|k: int| 0 <= k < n ==> (#[trigger] s0[k]).wf(),
            forall|k: int| 0 <= k < n ==> (#[trigger] w.ents@[k]).wf(),
            pass_keeps_slots(s0, w.ents@),
            lasers_killed(s0, w.ents@) == enemies_killed(s0, w.ents@),
            forall|k: int|
                0 <= k < n && s0[k].alive && !(#[trigger] w.ents@[k]).alive ==> s0[
                    k
                ].live_player_laser() || s0[k].live_enemy(),
            w.player == w0.player,
            w.enemy_count.count_spec() == count_enemies(w.ents@),
            w.enemy_count.count_spec() <= w0.enemy_count.count_spec(),
            w.pending@.len() - p0.len() == w0.enemy_count.count_spec()
                - w.enemy_count.count_spec(),
            count_players(w.ents@) == count_players(s0),
            p0.len() <= w.pending@.len(),
            w.pending@.subrange(0, p0.len() as int) == p0,
            forall|p: int|
                p0.len() <= p < w.pending@.len() ==> (#[trigger] w.pending@[p]).0.in_box(
                    crate::constants::POS_LIMIT as int,
                ),
            forall|k: int|
                0 <= k < n && (#[trigger] s0[k]).live_player_laser() && !w.ents@[k].alive
                    ==> exists|j: int|
                    0 <= j < n && (#[trigger] s0[j]).live_enemy() && ent_collides(s0[k], s0[j]),
            forall|k: int|
                0 <= k < n && (#[trigger] s0[k]).live_enemy() && !w.ents@[k].alive ==> (exists|
                    j: int,
                |
                    0 <= j < n && (#[trigger] s0[j]).live_player_laser() && ent_collides(
                        s0[j],
                        s0[k],
                    )) && (exists|p: int|
                    p0.len() <= p < w.pending@.len() && (#[trigger] w.pending@[p]).0 == s0[k].pos),
            forall|a: int, b: int|
                0 <= a < li && 0 <= b < n && (#[trigger] w.ents@[a]).live_player_laser() && (
                #[trigger] w.ents@[b]).live_enemy() ==> !ent_collides(s0[a], s0[b]),
        decreases n - li,
    {
        let laser0 = w.ents[li];
        if laser0.alive && matches!(laser0.role, Role::PlayerLaser(_, _)) {
            let mut ei: usize = 0;
            while ei < n
                invariant
                    li < n,
                    ei <= n,
                    n == s0.len(),
                    w.ents@.len() == n,
                    s0[li as int].live_player_laser(),
                    forall|k: int| 0 <= k < n ==> (#[trigger] s0[k]).wf(),
                    forall|k: int| 0 <= k < n ==> (#[trigger] w.ents@[k]).wf(),
                    pass_keeps_slots(s0, w.ents@),
                    lasers_killed(s0, w.ents@) == enemies_killed(s0, w.ents@),
                    forall|k: int|
                        0 <= k < n && s0[k].alive && !(#[trigger] w.ents@[k]).alive ==> s0[
                            k
                        ].live_player_laser() || s0[k].live_enemy(),
                    w.player == w0.player,
                    w.enemy_count.count_spec() == count_enemies(w.ents@),
                    w.enemy_count.count_spec() <= w0.enemy_count.count_spec(),
                    w.pending@.len() - p0.len() == w0.enemy_count.count_spec()
                        - w.enemy_count.count_spec(),
                    count_players(w.ents@) == count_players(s0),
                    p0.len() <= w.pending@.len(),
                    w.pending@.subrange(0, p0.len() as int) == p0,
                    forall|p: int|
                        p0.len() <= p < w.pending@.len() ==> (#[trigger] w.pending@[p]).0.in_box(
                            crate::constants::POS_LIMIT as int,
                        ),
                    forall|k: int|
                        0 <= k < n && (#[trigger] s0[k]).live_player_laser() && !w.ents@[k].alive
                            ==> exists|j: int|
                            0 <= j < n && (#[trigger] s0[j]).live_enemy() && ent_collides(
                                s0[k],
                                s0[j],
                            ),
                    forall|k: int|
                        0 <= k < n && (#[trigger] s0[k]).live_enemy() && !w.ents@[k].alive ==> (
                        exists|j: int|
                            0 <= j < n && (#[trigger] s0[j]).live_player_laser() && ent_collides(
                                s0[j],
                                s0[k],
                            )) && (exists|p: int|
                            p0.len() <= p < w.pending@.len() && (#[trigger] w.pending@[p]).0 == s0[
                                k
                            ].pos),
                    forall|a: int, b: int|
                        0 <= a < li && 0 <= b < n && (#[trigger] w.ents@[a]).live_player_laser()
                            && (#[trigger] w.ents@[b]).live_enemy() ==> !ent_collides(s0[a], s0[b]),
                    forall|b: int|
                        0 <= b < ei && w.ents@[li as int].alive && (#[trigger] w.ents@[b]).live_enemy()
                            ==> !ent_collides(s0[li as int], s0[b]),
                decreases n - ei,
            {
                let la = w.ents[li];
                let en = w.ents[ei];
                if la.alive && en.alive && matches!(en.role, Role::Enemy(_)) {
                    proof {
                        assert(la == s0[li as int]);
                        assert(en == s0[ei as int]);
                    }
                    if collide(&la, &en) {
                        proof {
                            assert(li != ei);
                        }
                        let ghost s_a = w.ents@;
                        let ghost p_a = w.pending@;
                        w.kill(li);
                        let ghost s_b = w.ents@;
                        w.kill(ei);
                        proof {
                            lemma_count_update(s_a, li as int, killed(s_a[li as int]));
                            lemma_count_update(s_b, ei as int, killed(s_b[ei as int]));
                            lemma_counts_nonneg(w.ents@, w.ents@.len() as int);
                            lemma_killed_counts_update(
                                s0,
                                s_a,
                                li as int,
                                killed(s_a[li as int]),
                                n as int,
                            );
                            lemma_killed_counts_update(
                                s0,
                                s_b,
                                ei as int,
                                killed(s_b[ei as int]),
                                n as int,
                            );
                        }
                        w.enemy_count.decrement();
                        w.pending.push(ExplosionToSpawn(en.pos));
                        proof {
                            assert(w.pending@.subrange(0, p0.len() as int) =~= p0);
                            assert(forall|p: int|
                                0 <= p < p_a.len() ==> #[trigger] w.pending@[p] == p_a[p]);
                            assert(w.ents@[li as int] == killed(s0[li as int]));
                            assert(w.ents@[ei as int] == killed(s0[ei as int]));
                            assert(s0[li as int].live_player_laser());
                            assert(s0[ei as int].live_enemy());
                            assert(ent_collides(s0[li as int], s0[ei as int]));
                            assert(w.pending@[w.pending@.len() - 1].0 == s0[ei as int].pos);
                            assert forall|k: int|
                                0 <= k < n && (#[trigger] s0[k]).live_enemy()
                                    && !w.ents@[k].alive implies exists|p: int|
                                p0.len() <= p < w.pending@.len() && (#[trigger] w.pending@[p]).0
                                    == s0[k].pos by {
                                if k == ei as int {
                                    assert(w.pending@[w.pending@.len() - 1].0 == s0[k].pos);
                                } else if k != li as int {
                                    assert(w.ents@[k] == s_a[k]);
                                    let pw = choose|p: int|
                                        p0.len() <= p < p_a.len() && (#[trigger] p_a[p]).0 == s0[
                                            k
                                        ].pos;
                                    assert(w.pending@[pw] == p_a[pw]);
                                }
                            }
                        }
                    }
                }
                ei += 1;
            }
        }
        li += 1;
    }
    proof {
        assert forall|k: int| 0 <= k < w.pending@.len() implies (#[trigger] w.pending@[k]).0.in_box(
            POS_LIMIT as int,
        ) by {
            if k < p0.len() {
                assert(w.pending@.subrange(0, p0.len() as int)[k] == w.pending@[k]);
                assert(p0[k].0.in_box(POS_LIMIT as int));
            }
        }
    }
}

/// Pass two, enemy projectiles against the single live player (if any):
/// the first overlapping projectile in enumeration order destroys both,
/// buffers an explosion spawn at the player's position and notifies the
/// respawn controller of the shot-down event at `now_us`.
#[verifier::rlimit(100)]
pub fn enemy_laser_hit_player_system(w: &mut World, now_us: i64)
    requires
        old(w).wf(),
        0 <= now_us <= TIME_LIMIT_US,
    ensures
        final(w).wf(),
        pass_keeps_slots(old(w).ents@, final(w).ents@),
        final(w).enemy_count == old(w).enemy_count,
        old(w).pending@.len() <= final(w).pending@.len(),
        final(w).pending@.len() <= old(w).pending@.len() + 1,
        final(w).pending@.subrange(0, old(w).pending@.len() as int) == old(w).pending@,
        // only the player and one of its assailants may die
        forall|k: int|
            0 <= k < old(w).ents@.len() && old(w).ents@[k].alive && !(#[trigger] final(w).ents@[k]).alive
                ==> old(w).ents@[k].live_player() || old(w).ents@[k].live_enemy_laser(),
        // a destroyed projectile overlapped the player
        forall|k: int|
            0 <= k < old(w).ents@.len() && (#[trigger] old(w).ents@[k]).live_enemy_laser()
                && !final(w).ents@[k].alive ==> exists|j: int|
                0 <= j < old(w).ents@.len() && (#[trigger] old(w).ents@[j]).live_player()
                    && ent_collides(old(w).ents@[k], old(w).ents@[j]),
        // detection is complete: any live overlapping projectile fells the player
        forall|i: int, j: int|
            0 <= i < old(w).ents@.len() && 0 <= j < old(w).ents@.len() && (#[trigger] old(w).ents@[i]).live_enemy_laser()
                && (#[trigger] old(w).ents@[j]).live_player() && ent_collides(
                old(w).ents@[i],
                old(w).ents@[j],
            ) ==> !final(w).ents@[j].alive,
        // the player falls only to a hit, and exactly one overlapping
        // projectile falls with it: the whole effect is those two deaths
        (exists|k: int|
            0 <= k < old(w).ents@.len() && (#[trigger] old(w).ents@[k]).live_player() && !final(w).ents@[k].alive)
            ==> exists|h: int, k: int|
            0 <= h < old(w).ents@.len() && 0 <= k < old(w).ents@.len()
                && (#[trigger] old(w).ents@[h]).live_enemy_laser()
                && (#[trigger] old(w).ents@[k]).live_player()
                && ent_collides(old(w).ents@[h], old(w).ents@[k])
                && final(w).ents@ == old(w).ents@.update(h, killed(old(w).ents@[h])).update(
                k,
                killed(old(w).ents@[k]),
            ),
        // with every projectile separated from the player, nothing happens
        (forall|i: int, j: int|
            0 <= i < old(w).ents@.len() && 0 <= j < old(w).ents@.len()
                && (#[trigger] old(w).ents@[i]).live_enemy_laser()
                && (#[trigger] old(w).ents@[j]).live_player() ==> !ent_collides(
                old(w).ents@[i],
                old(w).ents@[j],
            )) ==> {
            &&& final(w).ents@ == old(w).ents@
            &&& final(w).player == old(w).player
            &&& final(w).pending@ == old(w).pending@
        },
        // the shot-down event is recorded exactly when the player fell
        (exists|k: int|
            0 <= k < old(w).ents@.len() && (#[trigger] old(w).ents@[k]).live_player() && !final(w).ents@[k].alive)
            ==> {
            &&& !final(w).player.alive
            &&& final(w).player.last_shot == Option::Some(now_us)
            &&& exists|p: int, k: int|
                old(w).pending@.len() <= p < final(w).pending@.len()
                    && 0 <= k < old(w).ents@.len() && old(w).ents@[k].live_player()
                    && (#[trigger] final(w).pending@[p]).0 == (#[trigger] old(w).ents@[k]).pos
        },
        // with no hit, the tick leaves everything as it was
        (forall|k: int|
            0 <= k < old(w).ents@.len() && (#[trigger] old(w).ents@[k]).live_player() ==> final(w).ents@[k].alive)
            ==> {
            &&& final(w).ents@ == old(w).ents@
            &&& final(w).player == old(w).player
            &&& final(w).pending@ == old(w).pending@
        },
{
    let ghost s0 = w.ents@;
    let ghost w0 = *w;
    let ghost p0 = w.pending@;
    let n = w.ents.len();
    let mut pi: usize = 0;
    let mut found = false;
    let mut k: usize = 0;
    while k < n
        invariant
            k <= n,
            n == s0.len(),
            *w == w0,
            w.ents@ == s0,
            found ==> pi < n && s0[pi as int].live_player(),
            !found ==> forall|j: int| 0 <= j < k ==> !(#[trigger] s0[j]).live_player(),
        decreases n - k,
    {
        let e = w.ents[k];
        if e.alive && matches!(e.role, Role::Player(_)) {
            pi = k;
            found = true;
        }
        k += 1;
    }
    if found {
        proof {
            lemma_counts_nonneg(s0, pi as int);
            lemma_counts_mono(s0, pi as int + 1, n as int);
            assert(count_players_upto(s0, pi as int + 1) >= 1);
            assert(count_players(s0) == 1);
        }
        let mut i: usize = 0;
        let mut hit = false;
        while i < n
            invariant
                i <= n,
                n == s0.len(),
                pi < n,
                s0[pi as int].live_player(),
                w.ents@.len() == n,
                forall|j: int| 0 <= j < n ==> (#[trigger] s0[j]).wf(),
                0 <= now_us <= TIME_LIMIT_US,
                s0 == w0.ents@,
                p0 == w0.pending@,
                w0.enemy_count.count_spec() == count_enemies(s0),
                count_players(s0) == 1,
                !hit ==> *w == w0 && w.ents@ == s0,
                !hit ==> forall|a: int|
                    0 <= a < i && (#[trigger] s0[a]).live_enemy_laser() ==> !ent_collides(
                        s0[a],
                        s0[pi as int],
                    ),
                hit ==> exists|h: int|
                    0 <= h < n && (#[trigger] s0[h]).live_enemy_laser() && ent_collides(
                        s0[h],
                        s0[pi as int],
                    ) && w.ents@ == s0.update(h, killed(s0[h])).update(
                        pi as int,
                        killed(s0[pi as int]),
                    ),
                hit ==> !w.player.alive && w.player.last_shot == Option::Some(now_us)
                    && w.pending@ == p0.push(ExplosionToSpawn(s0[pi as int].pos)),
                hit ==> w.enemy_count.count_spec() == count_enemies(w.ents@),
                hit ==> count_players(w.ents@) == 0,
                w.enemy_count == w0.enemy_count,
            decreases n - i,
        {
            if !hit {
                let la = w.ents[i];
                if la.alive && matches!(la.role, Role::EnemyLaser(_, _)) {
                    let pl = w.ents[pi];
                    if collide(&la, &pl) {
                        proof {
                            assert(i != pi);
                        }
                        let ghost s_a = w.ents@;
                        w.kill(i);
                        let ghost s_b = w.ents@;
                        w.kill(pi);
                        proof {
                            lemma_count_update(s_a, i as int, killed(s_a[i as int]));
                            lemma_count_update(s_b, pi as int, killed(s_b[pi as int]));
                        }
                        w.player.mark_shot(now_us);
                        w.pending.push(ExplosionToSpawn(pl.pos));
                        hit = true;
                    }
                }
            }
            i += 1;
        }
        proof {
            if hit {
                assert(w.pending@.subrange(0, p0.len() as int) =~= p0);
                assert(w.pending@[p0.len() as int].0 == s0[pi as int].pos);
                assert(s0[pi as int].live_player());
                assert(w.ents@[pi as int] == killed(s0[pi as int]));
                let h = choose|h: int|
                    0 <= h < n && (#[trigger] s0[h]).live_enemy_laser() && ent_collides(
                        s0[h],
                        s0[pi as int],
                    ) && w.ents@ == s0.update(h, killed(s0[h])).update(
                        pi as int,
                        killed(s0[pi as int]),
                    );
                assert(0 <= h < n && s0[h].live_enemy_laser() && s0[pi as int].live_player()
                    && ent_collides(s0[h], s0[pi as int]) && w.ents@ == s0.update(
                    h,
                    killed(s0[h]),
                ).update(pi as int, killed(s0[pi as int])));
            }
            assert forall|a: int, b: int|
                0 <= a < n && 0 <= b < n && (#[trigger] s0[a]).live_enemy_laser() && (
                #[trigger] s0[b]).live_player() && ent_collides(s0[a], s0[b]) implies !w.ents@[b].alive by {
                if b != pi as int {
                    if b < pi as int {
                        lemma_two_players(s0, b, pi as int);
                    } else {
                        lemma_two_players(s0, pi as int, b);
                    }
                    assert(count_players(s0) >= 2);
                    assert(count_players(s0) <= 1);
                } else {
                    assert(hit);
                }
            }
        }
    } else {
        proof {
            assert forall|j: int| 0 <= j < n implies !(#[trigger] s0[j]).live_player() by {}
        }
    }
}

} // verus!
