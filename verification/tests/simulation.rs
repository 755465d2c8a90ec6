use invaders_core::collision::{collide, enemy_laser_hit_player_system, player_laser_hit_enemy_system};
use invaders_core::components::{
    Enemy, Explosion, ExplosionTimer, FromEnemy, FromPlayer, Laser, Movable, Player, Pos, Role,
    SpriteSize, Velocity,
};
use invaders_core::constants::{EXPLOSION_INTERVAL_US, MAX_ENEMIES};
use invaders_core::enemy::{enemy_fire_system, enemy_movement_system, enemy_spawn_system};
use invaders_core::explosion::{explosion_animation_system, explosion_to_spawn_system};
use invaders_core::formation::{Formation, FormationMaker};
use invaders_core::motion::movement_system;
use invaders_core::player::{
    player_fire_system, player_keyboard_event_system, player_spawn_system,
};
use invaders_core::resources::{Cadence, GameTextures, InputIntent, WindowSize};
use invaders_core::tick::run_tick;
use invaders_core::world::{Entity, World};

fn textures() -> GameTextures {
    GameTextures {
        player: 1,
        player_laser: 2,
        enemy_1: 3,
        enemy_2: 4,
        enemy_laser: 5,
        explosion: 6,
    }
}

fn window() -> WindowSize {
    WindowSize::new(598_000, 676_000)
}

fn player_at(p: Pos) -> Entity {
    Entity {
        role: Role::Player(Player),
        pos: p,
        layer: 10_000,
        scale: 500,
        size: SpriteSize::new(144_000, 75_000),
        vel: Some(Velocity::none()),
        movable: Some(Movable::with_auto_despawn(false)),
        formation: None,
        timer: None,
        sprite: 1,
        alive: true,
    }
}

fn test_formation(start: Pos) -> Formation {
    Formation {
        start,
        pivot: Pos::new(0, 0),
        radius_x: 100_000,
        radius_y: 100_000,
        speed: 500_000,
        angle: 0,
    }
}

fn enemy_at(p: Pos) -> Entity {
    Entity {
        role: Role::Enemy(Enemy),
        pos: p,
        layer: 10_000,
        scale: 500,
        size: SpriteSize::new(144_000, 75_000),
        vel: None,
        movable: None,
        formation: Some(test_formation(p)),
        timer: None,
        sprite: 3,
        alive: true,
    }
}

fn player_laser_at(p: Pos) -> Entity {
    Entity {
        role: Role::PlayerLaser(Laser, FromPlayer),
        pos: p,
        layer: 0,
        scale: 500,
        size: SpriteSize::new(9_000, 54_000),
        vel: Some(Velocity::y(1_300)),
        movable: Some(Movable::with_auto_despawn(true)),
        formation: None,
        timer: None,
        sprite: 2,
        alive: true,
    }
}

fn enemy_laser_at(p: Pos) -> Entity {
    Entity {
        role: Role::EnemyLaser(Laser, FromEnemy),
        pos: p,
        layer: 10_000,
        scale: 500,
        size: SpriteSize::new(17_000, 55_000),
        vel: Some(Velocity::y(-600)),
        movable: Some(Movable::with_auto_despawn(true)),
        formation: None,
        timer: None,
        sprite: 5,
        alive: true,
    }
}

// An auto-despawning entity is either strictly inside the margin-extended
// viewport after integration, or it no longer exists.
#[test]
fn integration_despawns_outside_the_margin_box() {
    let win = window();
    let mut w = World::new();
    w.spawn(player_laser_at(Pos::new(0, 520_000)));
    w.spawn(player_laser_at(Pos::new(0, 537_000)));
    movement_system(&mut w, &win);
    // vel 1.3 up: +10_832 milli per tick; the margin box ends at 538_000
    assert!(w.ents[0].alive);
    assert_eq!(w.ents[0].pos.y, 530_832);
    assert!(!w.ents[1].alive);
    // the player, lacking auto-despawn, survives anywhere
    let mut w2 = World::new();
    let mut p = player_at(Pos::new(900_000, 0));
    p.vel = Some(Velocity { x: 1_000, y: 0 });
    w2.spawn(p);
    w2.player.mark_spawned();
    movement_system(&mut w2, &win);
    assert!(w2.ents[0].alive);
    assert_eq!(w2.ents[0].pos.x, 908_333);
}

#[test]
fn collision_identical_centres_and_separation() {
    let a = player_laser_at(Pos::new(1_000, 2_000));
    let b = enemy_at(Pos::new(1_000, 2_000));
    assert!(collide(&a, &b));
    assert!(collide(&b, &a));
    // scaled extents: laser 4_500 x 27_000, enemy 72_000 x 37_500; on the
    // x axis half the extent sum is 38_250
    let c = enemy_at(Pos::new(1_000 + 38_251, 2_000));
    assert!(!collide(&a, &c));
    assert!(!collide(&c, &a));
    let d = enemy_at(Pos::new(1_000 + 38_249, 2_000));
    assert!(collide(&a, &d));
}

// Spawning an enemy and destroying it by a collision returns the counter
// to its pre-spawn value and removes its path from observation.
#[test]
fn spawn_then_collision_round_trip() {
    let mut w = World::new();
    w.spawn(player_laser_at(Pos::new(0, 0)));
    let before = w.enemy_count.current();
    w.spawn(enemy_at(Pos::new(0, 0)));
    w.enemy_count.increment();
    assert_eq!(w.enemy_count.current(), before + 1);
    player_laser_hit_enemy_system(&mut w);
    assert_eq!(w.enemy_count.current(), before);
    assert!(!w.ents[0].alive);
    assert!(!w.ents[1].alive);
    // an explosion spawn is buffered at the destroyed enemy's position
    assert_eq!(w.pending.len(), 1);
    assert_eq!(w.pending[0].0, Pos::new(0, 0));
    explosion_to_spawn_system(&mut w, &textures());
    assert_eq!(w.pending.len(), 0);
    let e = &w.ents[2];
    assert!(e.alive);
    assert!(matches!(e.role, Role::Explosion(Explosion)));
    assert!(e.formation.is_none());
}

#[test]
fn first_match_wins_on_multiple_overlaps() {
    let mut w = World::new();
    w.spawn(player_laser_at(Pos::new(0, 0)));
    w.spawn(enemy_at(Pos::new(0, 0)));
    w.spawn(enemy_at(Pos::new(1_000, 0)));
    w.enemy_count.increment();
    w.enemy_count.increment();
    player_laser_hit_enemy_system(&mut w);
    // the laser dies with the first enemy; the second survives
    assert!(!w.ents[0].alive);
    assert!(!w.ents[1].alive);
    assert!(w.ents[2].alive);
    assert_eq!(w.enemy_count.current(), 1);
    assert_eq!(w.pending.len(), 1);
}

#[test]
fn enemy_laser_shoots_down_player() {
    let mut w = World::new();
    w.spawn(player_at(Pos::new(0, -314_000)));
    w.player.mark_spawned();
    w.spawn(enemy_laser_at(Pos::new(0, -314_000)));
    enemy_laser_hit_player_system(&mut w, 42_000_000);
    assert!(!w.ents[0].alive);
    assert!(!w.ents[1].alive);
    assert!(!w.player.alive);
    assert_eq!(w.player.last_shot, Some(42_000_000));
    assert_eq!(w.pending.len(), 1);
    assert_eq!(w.pending[0].0, Pos::new(0, -314_000));
}

#[test]
fn enemy_laser_missing_player_changes_nothing() {
    let mut w = World::new();
    w.spawn(player_at(Pos::new(0, -314_000)));
    w.player.mark_spawned();
    w.spawn(enemy_laser_at(Pos::new(200_000, 200_000)));
    enemy_laser_hit_player_system(&mut w, 42_000_000);
    assert!(w.ents[0].alive);
    assert!(w.ents[1].alive);
    assert!(w.player.alive);
    assert_eq!(w.pending.len(), 0);
}

// At now = 11.9 s with a death at 10.0 s and a 2 s cooldown no spawn
// occurs; at now = 12.1 s the player is created exactly once.
#[test]
fn respawn_cooldown_scenario() {
    let win = window();
    let tex = textures();
    let mut w = World::new();
    w.player.mark_shot(10_000_000);
    player_spawn_system(&mut w, &tex, &win, 11_900_000);
    assert_eq!(w.ents.len(), 0);
    assert!(!w.player.alive);
    player_spawn_system(&mut w, &tex, &win, 12_100_000);
    assert_eq!(w.ents.len(), 1);
    assert!(w.ents[0].alive);
    assert!(matches!(w.ents[0].role, Role::Player(Player)));
    assert_eq!(w.ents[0].pos, Pos::new(0, -338_000 + 23_750));
    assert!(w.player.alive);
    // a second check spawns nothing more
    player_spawn_system(&mut w, &tex, &win, 12_100_000);
    assert_eq!(w.ents.len(), 1);
}

#[test]
fn initial_spawn_fires_without_prior_death() {
    let win = window();
    let tex = textures();
    let mut w = World::new();
    player_spawn_system(&mut w, &tex, &win, 0);
    assert_eq!(w.ents.len(), 1);
    assert!(w.player.alive);
}

// With a 0.05 s interval and 16 frames, after 0.79 s the frame index is
// 15 and the entity exists; after 0.80 s it is destroyed.
#[test]
fn explosion_animation_scenario() {
    let mut w = World::new();
    w.spawn(Entity {
        role: Role::Explosion(Explosion),
        pos: Pos::new(0, 0),
        layer: 10_000,
        scale: 1_000,
        size: SpriteSize::new(64_000, 64_000),
        vel: None,
        movable: None,
        formation: None,
        timer: Some(ExplosionTimer::default()),
        sprite: 6,
        alive: true,
    });
    assert_eq!(EXPLOSION_INTERVAL_US, 50_000);
    let mut elapsed: i64 = 0;
    while elapsed < 790_000 {
        explosion_animation_system(&mut w, 10_000);
        elapsed += 10_000;
    }
    assert!(w.ents[0].alive);
    assert_eq!(w.ents[0].timer.unwrap().frame, 15);
    explosion_animation_system(&mut w, 10_000);
    assert!(!w.ents[0].alive);
    assert_eq!(w.ents[0].timer.unwrap().frame, 16);
}

// Repeated formation advancement settles the enemy close enough to its
// path target for the angle to commit, within a bounded number of ticks.
#[test]
fn formation_convergence_scenario() {
    let mut f = test_formation(Pos::new(800_000, 0));
    let mut pos = Pos::new(800_000, 0);
    let mut committed_at: Option<u32> = None;
    let mut tick: u32 = 0;
    while tick < 150 {
        let before = f.angle;
        pos = f.advance(pos);
        if f.angle != before {
            committed_at = Some(tick);
            break;
        }
        tick += 1;
    }
    let reached = committed_at.expect("the path parameter never committed");
    assert!(reached < 100);
    // afterwards the ship keeps tracking the path without drifting away
    let mut k = 0;
    while k < 200 {
        pos = f.advance(pos);
        k += 1;
    }
    assert!(pos.x.abs() <= 1_000_000);
    assert!(pos.y.abs() <= 1_000_000);
}

#[test]
fn keyboard_sets_player_velocity() {
    let mut w = World::new();
    w.spawn(player_at(Pos::new(0, 0)));
    w.player.mark_spawned();
    let left = InputIntent { move_left: true, move_right: false, fire_pressed: false };
    player_keyboard_event_system(&mut w, &left);
    assert_eq!(w.ents[0].vel.unwrap().x, -1_000);
    let right = InputIntent { move_left: false, move_right: true, fire_pressed: false };
    player_keyboard_event_system(&mut w, &right);
    assert_eq!(w.ents[0].vel.unwrap().x, 1_000);
    let rest = InputIntent { move_left: false, move_right: false, fire_pressed: false };
    player_keyboard_event_system(&mut w, &rest);
    assert_eq!(w.ents[0].vel.unwrap().x, 0);
}

#[test]
fn player_fire_spawns_twin_lasers() {
    let mut w = World::new();
    w.spawn(player_at(Pos::new(10_000, 20_000)));
    w.player.mark_spawned();
    let fire = InputIntent { move_left: false, move_right: false, fire_pressed: true };
    player_fire_system(&mut w, &textures(), &fire);
    assert_eq!(w.ents.len(), 3);
    let a = &w.ents[1];
    let b = &w.ents[2];
    assert!(matches!(a.role, Role::PlayerLaser(Laser, FromPlayer)));
    assert_eq!(a.pos, Pos::new(10_000 + 31_000, 20_000 + 15_000));
    assert_eq!(b.pos, Pos::new(10_000 - 31_000, 20_000 + 15_000));
    assert_eq!(a.vel.unwrap().y, 1_300);
    // without the edge-triggered press nothing is spawned
    let idle = InputIntent { move_left: false, move_right: false, fire_pressed: false };
    player_fire_system(&mut w, &textures(), &idle);
    assert_eq!(w.ents.len(), 3);
}

#[test]
fn enemy_volley_spawns_one_laser_per_enemy() {
    let mut w = World::new();
    w.spawn(enemy_at(Pos::new(5_000, 6_000)));
    w.spawn(enemy_at(Pos::new(-9_000, 100_000)));
    w.enemy_count.increment();
    w.enemy_count.increment();
    enemy_fire_system(&mut w, &textures());
    assert_eq!(w.ents.len(), 4);
    let la = &w.ents[2];
    assert!(matches!(la.role, Role::EnemyLaser(Laser, FromEnemy)));
    assert_eq!(la.pos, Pos::new(5_000, 6_000 - 15_000));
    assert_eq!(la.vel.unwrap().y, -600);
    assert!(la.movable.unwrap().should_auto_despawn());
}

// The randomized spawn keeps the whole ellipse on-screen and starts the
// enemy just off the left or right viewport edge.
#[test]
fn enemy_spawn_randomized_geometry_is_bounded() {
    let win = window();
    let tex = textures();
    let mut k = 0;
    while k < 20 {
        let mut w = World::new();
        let mut maker = FormationMaker::default();
        enemy_spawn_system(&mut w, &mut maker, &tex, &win);
        assert_eq!(w.ents.len(), 1);
        assert_eq!(w.enemy_count.current(), 1);
        let e = &w.ents[0];
        assert!(matches!(e.role, Role::Enemy(Enemy)));
        let f = e.formation.expect("an enemy carries a formation path");
        assert!(f.pivot.x.abs() + f.radius_x <= win.width / 2);
        assert!(f.pivot.y.abs() + f.radius_y <= win.height / 2);
        assert!(f.radius_x >= 80_000 && f.radius_x <= 200_000);
        assert!(f.radius_y >= 80_000 && f.radius_y <= 200_000);
        assert!(f.start.x == win.width / 2 + 100_000 || f.start.x == -(win.width / 2) - 100_000);
        assert!(f.start.y.abs() <= win.height / 2 + 100_000);
        assert_eq!(e.pos, f.start);
        assert!(e.sprite == tex.enemy_1 || e.sprite == tex.enemy_2);
        k += 1;
    }
}

#[test]
fn enemy_spawn_respects_capacity() {
    let win = window();
    let tex = textures();
    let mut w = World::new();
    let mut maker = FormationMaker::default();
    let mut k = 0;
    while k < MAX_ENEMIES + 3 {
        enemy_spawn_system(&mut w, &mut maker, &tex, &win);
        k += 1;
    }
    assert_eq!(w.ents.len(), MAX_ENEMIES as usize);
    assert_eq!(w.enemy_count.current(), MAX_ENEMIES);
}

// The counter tracks the live enemy population through a whole tick.
#[test]
fn run_tick_keeps_counter_in_step() {
    let win = window();
    let tex = textures();
    let mut w = World::new();
    let mut maker = FormationMaker::default();
    let mut spawn_gate = Cadence::new(1_000_000);
    let mut respawn_gate = Cadence::new(500_000);
    let idle = InputIntent { move_left: false, move_right: false, fire_pressed: false };
    let mut now: i64 = 0;
    let mut t = 0;
    while t < 240 {
        run_tick(
            &mut w,
            &mut maker,
            &mut spawn_gate,
            &mut respawn_gate,
            &tex,
            &win,
            &idle,
            now,
            16_667,
        );
        now += 16_667;
        t += 1;
    }
    let live_enemies = w
        .ents
        .iter()
        .filter(|e| e.alive && matches!(e.role, Role::Enemy(Enemy)))
        .count();
    assert_eq!(w.enemy_count.current() as usize, live_enemies);
    assert!(w.enemy_count.current() <= MAX_ENEMIES);
    assert_eq!(w.pending.len(), 0);
    // the respawn controller spawned the player
    let live_players = w
        .ents
        .iter()
        .filter(|e| e.alive && matches!(e.role, Role::Player(Player)))
        .count();
    assert_eq!(live_players, if w.player.alive { 1 } else { 0 });
}

// Up to FORMATION_MEMBERS_MAX enemies share one randomly drawn template.
#[test]
fn formation_template_shared_by_two_members() {
    let win = window();
    let mut maker = FormationMaker::default();
    let a = maker.make(&win);
    let b = maker.make(&win);
    assert_eq!(a, b);
    let c = maker.make(&win);
    assert!(c.radius_x >= 80_000 && c.radius_x <= 200_000);
    let d = maker.make(&win);
    assert_eq!(c, d);
}

// The generic integrator never applies to formation carriers: enemy
// position is fully owned by the formation pass.
#[test]
fn integrator_exempts_formation_carriers() {
    let win = window();
    let mut w = World::new();
    w.spawn(enemy_at(Pos::new(7_000, 8_000)));
    w.enemy_count.increment();
    movement_system(&mut w, &win);
    assert_eq!(w.ents[0].pos, Pos::new(7_000, 8_000));
    enemy_movement_system(&mut w);
    assert!(w.ents[0].pos != Pos::new(7_000, 8_000));
}

// One tick delivers the input intent to the surviving player's velocity.
#[test]
fn run_tick_applies_intent_to_player() {
    let win = window();
    let tex = textures();
    let mut w = World::new();
    let mut maker = FormationMaker::default();
    let mut spawn_gate = Cadence::new(1_000_000);
    let mut respawn_gate = Cadence::new(500_000);
    let idle = InputIntent { move_left: false, move_right: false, fire_pressed: false };
    run_tick(
        &mut w,
        &mut maker,
        &mut spawn_gate,
        &mut respawn_gate,
        &tex,
        &win,
        &idle,
        0,
        16_667,
    );
    assert!(w.player.alive);
    let left = InputIntent { move_left: true, move_right: false, fire_pressed: false };
    run_tick(
        &mut w,
        &mut maker,
        &mut spawn_gate,
        &mut respawn_gate,
        &tex,
        &win,
        &left,
        16_667,
        16_667,
    );
    let player = w
        .ents
        .iter()
        .find(|e| e.alive && matches!(e.role, Role::Player(Player)))
        .expect("the player survives the tick");
    assert_eq!(player.vel.unwrap().x, -1_000);
}
