//! Enemy passes: capacity-gated spawning onto a formation path, the
//! randomly gated laser volley, and per-tick formation flight.

use vstd::prelude::*;
use crate::components::{Enemy, FromEnemy, Laser, Movable, Pos, Role, SpriteSize, Velocity};
use crate::constants::{
    ENEMY_LASER_SIZE_H, ENEMY_LASER_SIZE_W, ENEMY_LASER_VEL_Y, ENEMY_POS_LIMIT, ENEMY_SIZE_H,
    ENEMY_SIZE_W, MAX_ENEMIES, SPRITE_SCALE_MILLI,
};
use crate::formation::{Formation, FormationMaker};
use crate::resources::{GameTextures, WindowSize};
use crate::rng::rand_ratio;
use crate::world::{
    count_enemies, count_enemies_upto, count_players, count_players_upto, enemy_contrib,
    lemma_count_push, lemma_count_suffix_zero, lemma_counts_nonneg, lemma_counts_pointwise,
    player_contrib, Entity, World,
};

verus! {

/// The formation after one tick of flight from `p`: same geometry, the
/// parameter advanced exactly when it commits.
pub open spec fn advanced_formation(f: Formation, p: Pos) -> Formation {
    Formation {
        angle: (if f.commits_spec(p) {
            f.next_angle_spec()
        } else {
            f.angle as int
        }) as i64,
        ..f
    }
}

/// What one tick of formation flight makes of an entity: a live formation
/// carrier glides toward its path target; every other entity is untouched.
pub open spec fn formation_result(e: Entity) -> Entity {
    match e.formation {
        Option::Some(f) => {
            if e.alive {
                Entity {
                    pos: Pos {
                        x: f.advanced_x_spec(e.pos) as i64,
                        y: f.advanced_y_spec(e.pos) as i64,
                    },
                    formation: Option::Some(advanced_formation(f, e.pos)),
                    ..e
                }
            } else {
                e
            }
        },
        Option::None => e,
    }
}

/// One tick of formation flight over every live enemy.  This pass fully
/// overrides enemy position; the motion integrator never applies to
/// formation carriers.
pub fn enemy_movement_system(w: &mut World)
    requires
        old(w).wf(),
    ensures
        final(w).wf(),
        final(w).ents@.len() == old(w).ents@.len(),
        final(w).enemy_count == old(w).enemy_count,
        final(w).player == old(w).player,
        final(w).pending@ == old(w).pending@,
        forall|i: int|
            0 <= i < old(w).ents@.len() ==> final(w).ents@[i] == formation_result(
                #[trigger] old(w).ents@[i],
            ),
{
    let ghost s0 = w.ents@;
    let ghost w0 = *w;
    let n = w.ents.len();
    let mut i: usize = 0;
    while i < n
        invariant
            i <= n,
            n == s0.len(),
            w.ents@.len() == n,
            forall|j: int| 0 <= j < n ==> (#[trigger] s0[j]).wf(),
            forall|j: int| i <= j < n ==> w.ents@[j] == s0[j],
            forall|j: int| 0 <= j < i ==> w.ents@[j] == formation_result(#[trigger] s0[j]),
            forall|j: int| 0 <= j < i ==> (#[trigger] w.ents@[j]).wf(),
            w.enemy_count == w0.enemy_count,
            w.player == w0.player,
            w.pending@ == w0.pending@,
        decreases n - i,
    {
        let e = w.ents[i];
        if e.alive {
            match e.formation {
                Some(f0) => {
                    let mut f = f0;
                    let npos = f.advance(e.pos);
                    let mut e2 = e;
                    e2.pos = npos;
                    e2.formation = Some(f);
                    proof {
                        assert(e.role.is_enemy());
                        assert(e.pos.in_box(ENEMY_POS_LIMIT as int));
                        assert(npos.in_box(ENEMY_POS_LIMIT as int));
                        assert(e2.wf());
                    }
                    vstd::std_specs::core::index_set(&mut w.ents, i, e2);
                    proof {
                        assert(w.ents@[i as int] == formation_result(s0[i as int]));
                    }
                },
                None => {},
            }
        }
        i += 1;
    }
    proof {
        assert forall|j: int| 0 <= j < n implies enemy_contrib(w.ents@[j]) == enemy_contrib(
            s0[j],
        ) && player_contrib(w.ents@[j]) == player_contrib(s0[j]) by {
            assert(w.ents@[j] == formation_result(s0[j]));
        }
        lemma_counts_pointwise(s0, w.ents@, n as int);
    }
}

/// Spawn one enemy on a formation path, gated by the capacity check:
/// only while the live-enemy count is under `MAX_ENEMIES`.
pub fn enemy_spawn_system(
    w: &mut World,
    maker: &mut FormationMaker,
    textures: &GameTextures,
    win: &WindowSize,
)
    requires
        old(w).wf(),
        old(maker).wf(*win),
        win.wf(),
        old(w).ents@.len() < usize::MAX,
    ensures
        final(w).wf(),
        final(maker).wf(*win),
        final(w).player == old(w).player,
        final(w).pending@ == old(w).pending@,
        old(w).enemy_count.count_spec() >= MAX_ENEMIES ==> {
            &&& final(w).ents@ == old(w).ents@
            &&& final(w).enemy_count == old(w).enemy_count
        },
        old(w).enemy_count.count_spec() < MAX_ENEMIES ==> {
            &&& final(w).ents@.len() == old(w).ents@.len() + 1
            &&& forall|j: int| 0 <= j < old(w).ents@.len() ==> final(w).ents@[j] == old(w).ents@[j]
            &&& final(w).enemy_count.count_spec() == old(w).enemy_count.count_spec() + 1
            &&& final(w).ents@.last().live_enemy()
            &&& match final(w).ents@.last().formation {
                Option::Some(f) => f.wf() && f.on_screen(*win) && final(w).ents@.last().pos
                    == f.start && final(maker).template_spec() == Option::Some(f),
                Option::None => false,
            }
            &&& final(w).ents@.last().size == (SpriteSize { w: ENEMY_SIZE_W, h: ENEMY_SIZE_H })
            &&& final(w).ents@.last().scale == SPRITE_SCALE_MILLI
            &&& final(w).ents@.last().layer == 10_000
            &&& (final(w).ents@.last().sprite == textures.enemy_1
                || final(w).ents@.last().sprite == textures.enemy_2)
        },
{
    let ghost s0 = w.ents@;
    if w.enemy_count.has_availability() {
        let f = maker.make(win);
        let texture: u64 = if rand_ratio(1, 2) {
            textures.enemy_1
        } else {
            textures.enemy_2
        };
        let e = Entity {
            role: Role::Enemy(Enemy),
            pos: Pos::new(f.start.x, f.start.y),
            layer: 10_000,
            scale: SPRITE_SCALE_MILLI,
            size: SpriteSize::new(ENEMY_SIZE_W, ENEMY_SIZE_H),
            vel: None,
            movable: None,
            formation: Some(f),
            timer: None,
            sprite: texture,
            alive: true,
        };
        w.spawn(e);
        w.enemy_count.increment();
        proof {
            lemma_count_push(s0, e);
        }
    }
}

/// One laser volley: every live enemy fires a laser from just below its
/// position, moving down, auto-despawning at the boundary.
pub fn enemy_fire_system(w: &mut World, textures: &GameTextures)
    requires
        old(w).wf(),
        old(w).ents@.len() + MAX_ENEMIES <= usize::MAX,
    ensures
        final(w).wf(),
        final(w).enemy_count == old(w).enemy_count,
        final(w).player == old(w).player,
        final(w).pending@ == old(w).pending@,
        final(w).ents@.len() == old(w).ents@.len() + count_enemies(old(w).ents@),
        forall|j: int| 0 <= j < old(w).ents@.len() ==> final(w).ents@[j] == old(w).ents@[j],
        forall|j: int|
            old(w).ents@.len() <= j < final(w).ents@.len() ==> {
                &&& (#[trigger] final(w).ents@[j]).live_enemy_laser()
                &&& final(w).ents@[j].vel == Option::Some(
                    Velocity { x: 0, y: ENEMY_LASER_VEL_Y },
                )
                &&& final(w).ents@[j].auto_despawns()
                &&& final(w).ents@[j].size == (SpriteSize {
                    w: ENEMY_LASER_SIZE_W,
                    h: ENEMY_LASER_SIZE_H,
                })
                &&& final(w).ents@[j].scale == SPRITE_SCALE_MILLI
                &&& final(w).ents@[j].layer == 10_000
                &&& exists|k: int|
                    0 <= k < old(w).ents@.len() && (#[trigger] old(w).ents@[k]).live_enemy()
                        && final(w).ents@[j].pos.x == old(w).ents@[k].pos.x
                        && final(w).ents@[j].pos.y == old(w).ents@[k].pos.y - 15_000
            },
{
    let ghost s0 = w.ents@;
    let ghost w0 = *w;
    let n = w.ents.len();
    proof {
        lemma_counts_nonneg(s0, s0.len() as int);
    }
    let mut i: usize = 0;
    while i < n
        invariant
            i <= n,
            n == s0.len(),
            n + MAX_ENEMIES <= usize::MAX,
            w.ents@.len() == n + count_enemies_upto(s0, i as int),
            0 <= count_enemies_upto(s0, i as int),
            count_enemies_upto(s0, i as int) <= count_enemies(s0),
            count_enemies(s0) <= MAX_ENEMIES,
            forall|j: int| 0 <= j < n ==> (#[trigger] s0[j]).wf(),
            forall|j: int| 0 <= j < n ==> w.ents@[j] == s0[j],
            forall|j: int|
                n <= j < w.ents@.len() ==> {
                    &&& (#[trigger] w.ents@[j]).live_enemy_laser()
                    &&& w.ents@[j].wf()
                    &&& w.ents@[j].vel == Option::Some(Velocity { x: 0, y: ENEMY_LASER_VEL_Y })
                    &&& w.ents@[j].auto_despawns()
                    &&& w.ents@[j].size == (SpriteSize {
                        w: ENEMY_LASER_SIZE_W,
                        h: ENEMY_LASER_SIZE_H,
                    })
                    &&& w.ents@[j].scale == SPRITE_SCALE_MILLI
                    &&& w.ents@[j].layer == 10_000
                    &&& exists|k: int|
                        0 <= k < n && (#[trigger] s0[k]).live_enemy() && w.ents@[j].pos.x
                            == s0[k].pos.x && w.ents@[j].pos.y == s0[k].pos.y - 15_000
                },
            w.enemy_count == w0.enemy_count,
            w.player == w0.player,
            w.pending@ == w0.pending@,
        decreases n - i,
    {
        let e = w.ents[i];
        proof {
            lemma_count_prefix_step(s0, i as int);
        }
        if e.alive && e.formation.is_some() {
            let laser = Entity {
                role: Role::EnemyLaser(Laser, FromEnemy),
                pos: Pos::new(e.pos.x, e.pos.y - 15_000),
                layer: 10_000,
                scale: SPRITE_SCALE_MILLI,
                size: SpriteSize::new(ENEMY_LASER_SIZE_W, ENEMY_LASER_SIZE_H),
                vel: Some(Velocity::y(ENEMY_LASER_VEL_Y)),
                movable: Some(Movable::with_auto_despawn(true)),
                formation: None,
                timer: None,
                sprite: textures.enemy_laser,
                alive: true,
            };
            let ghost before = w.ents@;
            w.ents.push(laser);
            proof {
                lemma_count_push(before, laser);
            }
        }
        proof {
            lemma_counts_nonneg(s0, (i + 1) as int);
            lemma_count_prefix_bounded(s0, (i + 1) as int);
        }
        i += 1;
    }
    proof {
        assert forall|j: int| 0 <= j < w.ents@.len() implies (#[trigger] w.ents@[j]).wf() by {
            if j < n {
                assert(w.ents@[j] == s0[j]);
                assert(s0[j].wf());
            }
        }
        assert forall|j: int|
            n <= j < w.ents@.len() implies !(#[trigger] w.ents@[j]).live_enemy()
                && !w.ents@[j].live_player() by {
            assert(w.ents@[j].live_enemy_laser());
        }
        lemma_counts_pointwise(s0, w.ents@, n as int);
        lemma_count_suffix_zero(w.ents@, n as int);
    }
}

/// Live enemies among a prefix never exceed the whole count.
proof fn lemma_count_prefix_bounded(s: Seq<Entity>, i: int)
    requires
        0 <= i <= s.len(),
    ensures
        count_enemies_upto(s, i) <= count_enemies(s),
    decreases s.len() - i,
{
    if i < s.len() {
        lemma_count_prefix_bounded(s, i + 1);
    }
}

/// One unfolding step of the prefix count.
proof fn lemma_count_prefix_step(s: Seq<Entity>, i: int)
    requires
        0 <= i < s.len(),
    ensures
        count_enemies_upto(s, i + 1) == count_enemies_upto(s, i) + enemy_contrib(s[i]),
{
}

} // verus!
