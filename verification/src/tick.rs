//! One simulation tick: the ordered pipeline of passes, with mutations
//! buffered inside each pass and applied before the next, so no pass
//! observes a partially mutated store.

use vstd::prelude::*;
use crate::collision::{enemy_laser_hit_player_system, player_laser_hit_enemy_system};
use crate::constants::{ENEMY_FIRE_ONE_IN, MAX_ENEMIES, TIMER_CAP_US, TIME_LIMIT_US};
use crate::enemy::{enemy_fire_system, enemy_movement_system, enemy_spawn_system};
use crate::explosion::{animation_result, explosion_animation_system, explosion_to_spawn_system};
use crate::formation::FormationMaker;
use crate::motion::movement_system;
use crate::player::{
    keyboard_result, player_fire_system, player_keyboard_event_system, player_spawn_system,
};
use crate::resources::{Cadence, GameTextures, InputIntent, WindowSize};
use crate::rng::rand_ratio;
use crate::world::{lemma_no_players, World};

verus! {

/// Intent and producers: keyboard intent, the twin player shot, the
/// randomly gated enemy volley, and the timed enemy spawn.  New entities
/// are appended, so every pre-existing slot keeps its index and carries
/// exactly the applied keyboard intent.
fn intent_phase(
    w: &mut World,
    maker: &mut FormationMaker,
    spawn_gate: &mut Cadence,
    textures: &GameTextures,
    win: &WindowSize,
    input: &InputIntent,
    now_us: i64,
)
    requires
        old(w).wf(),
        old(maker).wf(*win),
        old(spawn_gate).wf(),
        win.wf(),
        0 <= now_us <= TIME_LIMIT_US,
        old(w).ents@.len() <= 1_000_000,
    ensures
        final(w).wf(),
        final(maker).wf(*win),
        final(spawn_gate).wf(),
        final(w).player == old(w).player,
        old(w).ents@.len() <= final(w).ents@.len(),
        final(w).ents@.len() <= old(w).ents@.len() + 7,
        final(w).pending@ == old(w).pending@,
        forall|i: int|
            0 <= i < old(w).ents@.len() ==> final(w).ents@[i] == keyboard_result(
                #[trigger] old(w).ents@[i],
                *input,
            ),
{
    let ghost s0 = w.ents@;
    player_keyboard_event_system(w, input);
    let ghost s1 = w.ents@;
    player_fire_system(w, textures, input);
    let ghost s2 = w.ents@;
    if rand_ratio(1, ENEMY_FIRE_ONE_IN) {
        enemy_fire_system(w, textures);
    }
    let ghost s3 = w.ents@;
    if spawn_gate.due(now_us) {
        enemy_spawn_system(w, maker, textures, win);
    }
    proof {
        crate::world::lemma_counts_nonneg(s2, s2.len() as int);
        assert(s0.len() <= s1.len() && s1.len() <= s2.len() && s2.len() <= s3.len() && s3.len()
            <= w.ents@.len());
        assert forall|i: int|
            0 <= i < s0.len() implies w.ents@[i] == keyboard_result(
            #[trigger] s0[i],
            *input,
        ) by {
            assert(s1[i] == keyboard_result(s0[i], *input));
            assert(s2[i] == s1[i]);
            assert(s3[i] == s2[i]);
            assert(w.ents@[i] == s3[i]);
        }
    }
}

/// Movement and combat: motion integration, formation flight, and the two
/// collision passes.  Slots keep their indices; whatever stays alive keeps
/// its role and velocity; explosions pass through untouched; a dead player
/// state is untouched.
fn combat_phase(w: &mut World, win: &WindowSize, now_us: i64)
    requires
        old(w).wf(),
        win.wf(),
        0 <= now_us <= TIME_LIMIT_US,
    ensures
        final(w).wf(),
        final(w).ents@.len() == old(w).ents@.len(),
        final(w).pending@.len() <= old(w).pending@.len() + MAX_ENEMIES + 1,
        forall|i: int|
            0 <= i < old(w).ents@.len() && (#[trigger] old(w).ents@[i]).live_explosion()
                ==> final(w).ents@[i] == old(w).ents@[i],
        forall|i: int|
            0 <= i < old(w).ents@.len() && (#[trigger] final(w).ents@[i]).alive ==> old(w).ents@[i].alive && final(w).ents@[i].vel == old(w).ents@[i].vel && final(w).ents@[i].role == old(w).ents@[i].role,
        !old(w).player.alive ==> final(w).player == old(w).player,
{
    let ghost s0 = w.ents@;
    let ghost p0 = w.player;
    movement_system(w, win);
    let ghost s1 = w.ents@;
    enemy_movement_system(w);
    let ghost s2 = w.ents@;
    player_laser_hit_enemy_system(w);
    let ghost s3 = w.ents@;
    proof {
        crate::world::lemma_counts_nonneg(w.ents@, w.ents@.len() as int);
        if !p0.alive {
            lemma_no_players(w.ents@);
        }
    }
    enemy_laser_hit_player_system(w, now_us);
    proof {
        assert forall|i: int|
            0 <= i < s0.len() && (#[trigger] s0[i]).live_explosion() implies w.ents@[i] == s0[
            i
        ] by {
            assert(s0[i].wf());
            assert(s1[i] == s0[i]);
            assert(s2[i] == s1[i]);
            assert(s3[i] == s2[i]);
        }
        assert forall|i: int|
            0 <= i < s0.len() && (#[trigger] w.ents@[i]).alive implies s0[i].alive && w.ents@[i].vel
            == s0[i].vel && w.ents@[i].role == s0[i].role by {
            assert(s0[i].wf());
            assert(w.ents@[i] == s3[i]);
            assert(s3[i] == s2[i]);
        }
    }
}

/// Barrier and cleanup: the gated respawn check, buffered explosion
/// spawns applied, and the animation tick over every live explosion.
fn cleanup_phase(
    w: &mut World,
    respawn_gate: &mut Cadence,
    textures: &GameTextures,
    win: &WindowSize,
    now_us: i64,
    delta_us: i64,
)
    requires
        old(w).wf(),
        old(respawn_gate).wf(),
        win.wf(),
        0 <= now_us <= TIME_LIMIT_US,
        0 <= delta_us <= TIMER_CAP_US,
        old(w).ents@.len() <= 2_000_000,
        old(w).pending@.len() <= 2_000_000,
    ensures
        final(w).wf(),
        final(respawn_gate).wf(),
        final(w).pending@.len() == 0,
        old(w).ents@.len() <= final(w).ents@.len(),
        forall|i: int|
            0 <= i < old(w).ents@.len() && (#[trigger] old(w).ents@[i]).live_explosion()
                ==> final(w).ents@[i] == animation_result(old(w).ents@[i], delta_us as int),
        forall|i: int|
            0 <= i < old(w).ents@.len() && (#[trigger] final(w).ents@[i]).alive ==> old(w).ents@[i].alive && final(w).ents@[i].vel == old(w).ents@[i].vel && final(w).ents@[i].role == old(w).ents@[i].role,
        (old(respawn_gate).due_spec(now_us as int) && old(w).player.respawn_due(now_us as int))
            ==> final(w).player.alive,
{
    let ghost s0 = w.ents@;
    if respawn_gate.due(now_us) {
        player_spawn_system(w, textures, win, now_us);
    }
    let ghost s1 = w.ents@;
    explosion_to_spawn_system(w, textures);
    let ghost s2 = w.ents@;
    explosion_animation_system(w, delta_us);
    proof {
        assert forall|i: int|
            0 <= i < s0.len() && (#[trigger] s0[i]).live_explosion() implies w.ents@[i]
            == animation_result(s0[i], delta_us as int) by {
            assert(s1[i] == s0[i]);
            assert(s2[i] == s1[i]);
            assert(w.ents@[i] == animation_result(s2[i], delta_us as int));
        }
        assert forall|i: int|
            0 <= i < s0.len() && (#[trigger] w.ents@[i]).alive implies s0[i].alive && w.ents@[i].vel
            == s0[i].vel && w.ents@[i].role == s0[i].role by {
            assert(s1[i] == s0[i]);
            assert(s2[i] == s1[i]);
            assert(w.ents@[i] == animation_result(s2[i], delta_us as int));
        }
    }
}

/// Run one fixed tick of the simulation pipeline, in the order: input
/// intent and fire, timed enemy spawn, motion integration, formation
/// flight, the two collision passes, the gated respawn check, and the
/// explosion spawn and animation barrier.
///
/// `now_us` is the monotonic time at this tick and `delta_us` the time
/// since the previous one; `spawn_gate` and `respawn_gate` are the coarse
/// run-interval gates of the timed enemy spawn and the respawn check.
pub fn run_tick(
    w: &mut World,
    maker: &mut FormationMaker,
    spawn_gate: &mut Cadence,
    respawn_gate: &mut Cadence,
    textures: &GameTextures,
    win: &WindowSize,
    input: &InputIntent,
    now_us: i64,
    delta_us: i64,
)
    requires
        old(w).wf(),
        old(maker).wf(*win),
        old(spawn_gate).wf(),
        old(respawn_gate).wf(),
        win.wf(),
        0 <= now_us <= TIME_LIMIT_US,
        0 <= delta_us <= TIMER_CAP_US,
        old(w).ents@.len() <= 1_000_000,
        old(w).pending@.len() <= 1_000_000,
    ensures
        final(w).wf(),
        final(maker).wf(*win),
        final(spawn_gate).wf(),
        final(respawn_gate).wf(),
        final(w).pending@.len() == 0,
        old(w).ents@.len() <= final(w).ents@.len(),
        // every pre-existing live explosion runs exactly one animation tick
        forall|i: int|
            0 <= i < old(w).ents@.len() && (#[trigger] old(w).ents@[i]).live_explosion()
                ==> final(w).ents@[i] == animation_result(old(w).ents@[i], delta_us as int),
        // a due respawn check with an expired cooldown revives the player
        (old(respawn_gate).due_spec(now_us as int) && old(w).player.respawn_due(now_us as int))
            ==> final(w).player.alive,
        // the tick's input intent reaches the surviving player's velocity
        forall|i: int|
            0 <= i < old(w).ents@.len() && (#[trigger] old(w).ents@[i]).live_player() && final(w).ents@[i].alive ==> final(w).ents@[i].vel == keyboard_result(
                old(w).ents@[i],
                *input,
            ).vel,
{
    let ghost s0 = w.ents@;
    let ghost pl0 = w.player;
    intent_phase(w, maker, spawn_gate, textures, win, input, now_us);
    let ghost s1 = w.ents@;
    combat_phase(w, win, now_us);
    let ghost s2 = w.ents@;
    cleanup_phase(w, respawn_gate, textures, win, now_us, delta_us);
    proof {
        assert forall|i: int|
            0 <= i < s0.len() && (#[trigger] s0[i]).live_explosion() implies w.ents@[i]
            == animation_result(s0[i], delta_us as int) by {
            assert(s1[i] == keyboard_result(s0[i], *input));
            assert(s1[i] == s0[i]);
            assert(s2[i] == s1[i]);
            assert(w.ents@[i] == animation_result(s2[i], delta_us as int));
        }
        assert forall|i: int|
            0 <= i < s0.len() && (#[trigger] s0[i]).live_player() && w.ents@[i].alive implies w
            .ents@[i].vel == keyboard_result(s0[i], *input).vel by {
            assert(s1[i] == keyboard_result(s0[i], *input));
            assert(s2[i].alive ==> s1[i].alive && s2[i].vel == s1[i].vel);
            assert(w.ents@[i].alive ==> s2[i].alive && w.ents@[i].vel == s2[i].vel);
        }
    }
}

} // verus!
