//! Player passes: the cooldown-gated respawn, keyboard intent applied to
//! the player's velocity, and the edge-triggered twin laser shot.

use vstd::prelude::*;
use crate::components::{FromPlayer, Laser, Movable, Player, Pos, Role, SpriteSize, Velocity};
use crate::constants::{
    FIRE_Y_OFF, MOVE_CLAMP, PLAYER_FIRE_X_OFF, PLAYER_LASER_SIZE_H, PLAYER_LASER_SIZE_W,
    PLAYER_LASER_VEL_Y, PLAYER_MOVE_VEL, PLAYER_RESPAWN_DELAY_US, PLAYER_SIZE_H, PLAYER_SIZE_W,
    PLAYER_SPAWN_LIFT, SPRITE_SCALE_MILLI, TIME_LIMIT_US,
};
use crate::resources::{GameTextures, InputIntent, WindowSize};
use crate::world::{
    enemy_contrib, lemma_count_push, lemma_counts_pointwise, player_contrib, Entity, World,
};

verus! {

/// The fixed spawn point: bottom-centre of the viewport, lifted by half
/// the scaled player height plus a small gap.
pub open spec fn player_spawn_pos(win: WindowSize) -> Pos {
    Pos { x: 0, y: (-(win.height / 2) + PLAYER_SPAWN_LIFT) as i64 }
}

/// Conditional player spawn: when the respawn controller is in Dead state
/// and the cooldown has expired (or no death has happened yet), create the
/// player at the launch position with zero velocity and go Alive.
pub fn player_spawn_system(w: &mut World, textures: &GameTextures, win: &WindowSize, now_us: i64)
    requires
        old(w).wf(),
        win.wf(),
        0 <= now_us <= TIME_LIMIT_US,
        old(w).ents@.len() < usize::MAX,
    ensures
        final(w).wf(),
        final(w).enemy_count == old(w).enemy_count,
        final(w).pending@ == old(w).pending@,
        old(w).player.respawn_due(now_us as int) ==> {
            &&& final(w).ents@.len() == old(w).ents@.len() + 1
            &&& forall|j: int| 0 <= j < old(w).ents@.len() ==> final(w).ents@[j] == old(w).ents@[j]
            &&& final(w).ents@.last().live_player()
            &&& final(w).ents@.last().pos == player_spawn_pos(*win)
            &&& final(w).ents@.last().vel == Option::Some(Velocity { x: 0, y: 0 })
            &&& !final(w).ents@.last().auto_despawns()
            &&& final(w).ents@.last().size == (SpriteSize { w: PLAYER_SIZE_W, h: PLAYER_SIZE_H })
            &&& final(w).ents@.last().scale == SPRITE_SCALE_MILLI
            &&& final(w).ents@.last().layer == 10_000
            &&& final(w).player.alive
            &&& final(w).player.last_shot is None
        },
        !old(w).player.respawn_due(now_us as int) ==> {
            &&& final(w).ents@ == old(w).ents@
            &&& final(w).player == old(w).player
        },
{
    let ghost s0 = w.ents@;
    let due: bool = if !w.player.alive {
        match w.player.last_shot {
            Some(t) => now_us > t + PLAYER_RESPAWN_DELAY_US,
            None => true,
        }
    } else {
        false
    };
    if due {
        let half_h: i64 = ((win.height as u64) / 2) as i64;
        let e = Entity {
            role: Role::Player(Player),
            pos: Pos::new(0, -half_h + PLAYER_SPAWN_LIFT),
            layer: 10_000,
            scale: SPRITE_SCALE_MILLI,
            size: SpriteSize::new(PLAYER_SIZE_W, PLAYER_SIZE_H),
            vel: Some(Velocity::none()),
            movable: Some(Movable::with_auto_despawn(false)),
            formation: None,
            timer: None,
            sprite: textures.player,
            alive: true,
        };
        w.spawn(e);
        w.player.mark_spawned();
        proof {
            lemma_count_push(s0, e);
        }
    }
}

/// The horizontal velocity the input intent asks for, in milli: left wins
/// over right, neither means rest.
pub open spec fn intent_vel_x(inp: InputIntent) -> int {
    if inp.move_left {
        -PLAYER_MOVE_VEL as int
    } else if inp.move_right {
        PLAYER_MOVE_VEL as int
    } else {
        0
    }
}

/// What the keyboard pass makes of an entity: the live player's horizontal
/// velocity follows the intent; everything else is untouched.
pub open spec fn keyboard_result(e: Entity, inp: InputIntent) -> Entity {
    if e.live_player() {
        match e.vel {
            Option::Some(v) => Entity {
                vel: Option::Some(Velocity { x: intent_vel_x(inp) as i64, y: v.y }),
                ..e
            },
            Option::None => e,
        }
    } else {
        e
    }
}

/// Apply the per-tick input intent to the player's velocity.
pub fn player_keyboard_event_system(w: &mut World, input: &InputIntent)
    requires
        old(w).wf(),
    ensures
        final(w).wf(),
        final(w).ents@.len() == old(w).ents@.len(),
        final(w).enemy_count == old(w).enemy_count,
        final(w).player == old(w).player,
        final(w).pending@ == old(w).pending@,
        forall|i: int|
            0 <= i < old(w).ents@.len() ==> final(w).ents@[i] == keyboard_result(
                #[trigger] old(w).ents@[i],
                *input,
            ),
{
    let ghost s0 = w.ents@;
    let ghost w0 = *w;
    let n = w.ents.len();
    let mut i: usize = 0;
    while i < n
        invariant
            i <= n,
            n == s0.len(),
            w.ents@.len() == n,
            forall|j: int| 0 <= j < n ==> (#[trigger] s0[j]).wf(),
            forall|j: int| i <= j < n ==> w.ents@[j] == s0[j],
            forall|j: int| 0 <= j < i ==> w.ents@[j] == keyboard_result(#[trigger] s0[j], *input),
            w.enemy_count == w0.enemy_count,
            w.player == w0.player,
            w.pending@ == w0.pending@,
        decreases n - i,
    {
        let e = w.ents[i];
        if e.alive && matches!(e.role, Role::Player(_)) {
            match e.vel {
                Some(v) => {
                    let vx: i64 = if input.move_left {
                        -PLAYER_MOVE_VEL
                    } else if input.move_right {
                        PLAYER_MOVE_VEL
                    } else {
                        0
                    };
                    let mut e2 = e;
                    e2.vel = Some(Velocity { x: vx, y: v.y });
                    vstd::std_specs::core::index_set(&mut w.ents, i, e2);
                },
                None => {},
            }
        }
        proof {
            assert(w.ents@[i as int] == keyboard_result(s0[i as int], *input));
        }
        i += 1;
    }
    proof {
        assert forall|j: int| 0 <= j < n implies enemy_contrib(w.ents@[j]) == enemy_contrib(
            s0[j],
        ) && player_contrib(w.ents@[j]) == player_contrib(s0[j]) by {
            assert(w.ents@[j] == keyboard_result(s0[j], *input));
        }
        lemma_counts_pointwise(s0, w.ents@, n as int);
        assert forall|j: int| 0 <= j < n implies (#[trigger] w.ents@[j]).wf() by {
            assert(w.ents@[j] == keyboard_result(s0[j], *input));
            assert(s0[j].wf());
        }
    }
}

/// A player laser as the fire pass spawns it at `p`: a live player
/// projectile heading straight up, auto-despawning at the boundary.
pub open spec fn is_player_laser_at(e: Entity, p: Pos, sprite: u64) -> bool {
    &&& e.live_player_laser()
    &&& e.pos == p
    &&& e.vel == Option::Some(Velocity { x: 0, y: PLAYER_LASER_VEL_Y })
    &&& e.auto_despawns()
    &&& e.size == (SpriteSize { w: PLAYER_LASER_SIZE_W, h: PLAYER_LASER_SIZE_H })
    &&& e.scale == SPRITE_SCALE_MILLI
    &&& e.layer == 0
    &&& e.sprite == sprite
}

/// The edge-triggered twin shot: on the tick the fire key goes down, the
/// live player (if any) spawns one laser from each muzzle.
pub fn player_fire_system(w: &mut World, textures: &GameTextures, input: &InputIntent)
    requires
        old(w).wf(),
        old(w).ents@.len() + 2 <= usize::MAX,
    ensures
        final(w).wf(),
        final(w).enemy_count == old(w).enemy_count,
        final(w).player == old(w).player,
        final(w).pending@ == old(w).pending@,
        forall|j: int| 0 <= j < old(w).ents@.len() ==> final(w).ents@[j] == old(w).ents@[j],
        old(w).ents@.len() <= final(w).ents@.len(),
        final(w).ents@.len() <= old(w).ents@.len() + 2,
        !input.fire_pressed ==> final(w).ents@ == old(w).ents@,
        (input.fire_pressed && exists|k: int|
            0 <= k < old(w).ents@.len() && (#[trigger] old(w).ents@[k]).live_player()) ==> {
            &&& final(w).ents@.len() == old(w).ents@.len() + 2
            &&& exists|k: int|
                0 <= k < old(w).ents@.len() && (#[trigger] old(w).ents@[k]).live_player()
                    && is_player_laser_at(
                    final(w).ents@[old(w).ents@.len() as int],
                    (Pos {
                        x: (old(w).ents@[k].pos.x + PLAYER_FIRE_X_OFF) as i64,
                        y: (old(w).ents@[k].pos.y + FIRE_Y_OFF) as i64,
                    }),
                    textures.player_laser,
                ) && is_player_laser_at(
                    final(w).ents@[old(w).ents@.len() as int + 1],
                    (Pos {
                        x: (old(w).ents@[k].pos.x - PLAYER_FIRE_X_OFF) as i64,
                        y: (old(w).ents@[k].pos.y + FIRE_Y_OFF) as i64,
                    }),
                    textures.player_laser,
                )
        },
        (forall|k: int|
            0 <= k < old(w).ents@.len() ==> !(#[trigger] old(w).ents@[k]).live_player())
            ==> final(w).ents@ == old(w).ents@,
{
    let ghost s0 = w.ents@;
    let n = w.ents.len();
    let mut pi: usize = 0;
    let mut found = false;
    let mut k: usize = 0;
    while k < n
        invariant
            k <= n,
            n == s0.len(),
            w.ents@ == s0,
            found ==> pi < n && s0[pi as int].live_player(),
            !found ==> forall|j: int| 0 <= j < k ==> !(#[trigger] s0[j]).live_player(),
        decreases n - k,
    {
        let e = w.ents[k];
        if e.alive && matches!(e.role, Role::Player(_)) {
            pi = k;
            found = true;
        }
        k += 1;
    }
    if found && input.fire_pressed {
        let pl = w.ents[pi];
        proof {
            assert(pl.wf());
            assert(pl.pos.in_box(MOVE_CLAMP as int));
        }
        let right = Entity {
            role: Role::PlayerLaser(Laser, FromPlayer),
            pos: Pos::new(pl.pos.x + PLAYER_FIRE_X_OFF, pl.pos.y + FIRE_Y_OFF),
            layer: 0,
            scale: SPRITE_SCALE_MILLI,
            size: SpriteSize::new(PLAYER_LASER_SIZE_W, PLAYER_LASER_SIZE_H),
            vel: Some(Velocity::y(PLAYER_LASER_VEL_Y)),
            movable: Some(Movable::with_auto_despawn(true)),
            formation: None,
            timer: None,
            sprite: textures.player_laser,
            alive: true,
        };
        let left = Entity {
            role: Role::PlayerLaser(Laser, FromPlayer),
            pos: Pos::new(pl.pos.x - PLAYER_FIRE_X_OFF, pl.pos.y + FIRE_Y_OFF),
            ..right
        };
        let ghost sa = w.ents@;
        w.ents.push(right);
        let ghost sb = w.ents@;
        w.ents.push(left);
        proof {
            lemma_count_push(sa, right);
            lemma_count_push(sb, left);
        }
    }
}

} // verus!
