use invaders_core::components::{ExplosionTimer, Movable, Pos, SpriteSize, Velocity};
use invaders_core::constants::{EXPLOSION_INTERVAL_US, MAX_ENEMIES};
use invaders_core::fixed::{clamp_i64, isqrt, mul_div, scale_milli};
use invaders_core::resources::{Cadence, EnemyCount, PlayerState, WindowSize};
use invaders_core::trig::{cos_mrad, norm_mrad, sin_mrad};

#[test]
fn scale_milli_rounds_toward_zero() {
    assert_eq!(scale_milli(1300, 8333), 10_832);
    assert_eq!(scale_milli(-600, 8333), -4_999);
    assert_eq!(scale_milli(1000, 8333), 8_333);
    assert_eq!(scale_milli(0, 8333), 0);
}

#[test]
fn mul_div_exact() {
    assert_eq!(mul_div(8333, 500_000, 20_000), 208_325);
    assert_eq!(mul_div(7, 3, 2), 10);
}

#[test]
fn isqrt_exact_values() {
    assert_eq!(isqrt(0), 0);
    assert_eq!(isqrt(1), 1);
    assert_eq!(isqrt(8_999_999), 2_999);
    assert_eq!(isqrt(9_000_000), 3_000);
    assert_eq!(isqrt(u64::MAX), 4_294_967_295);
}

#[test]
fn clamp_symmetric() {
    assert_eq!(clamp_i64(5, 10), 5);
    assert_eq!(clamp_i64(15, 10), 10);
    assert_eq!(clamp_i64(-15, 10), -10);
}

#[test]
fn sine_quarter_points() {
    assert_eq!(sin_mrad(0), 0);
    assert_eq!(sin_mrad(1571), 1000);
    assert_eq!(sin_mrad(3142), 0);
    assert_eq!(sin_mrad(4713), -1000);
    assert_eq!(cos_mrad(0), 1000);
    assert_eq!(cos_mrad(1571), 0);
    assert_eq!(cos_mrad(3142), -1000);
}

#[test]
fn sine_stays_in_milli_unit_range() {
    let mut a: i64 = 0;
    while a < 6284 {
        let s = sin_mrad(a);
        let c = cos_mrad(a);
        assert!(-1000 <= s && s <= 1000);
        assert!(-1000 <= c && c <= 1000);
        a += 17;
    }
}

#[test]
fn norm_wraps_one_turn() {
    assert_eq!(norm_mrad(-1), 6283);
    assert_eq!(norm_mrad(0), 0);
    assert_eq!(norm_mrad(6284), 0);
    assert_eq!(norm_mrad(7000), 716);
}

#[test]
fn movable_flag_round_trip() {
    assert!(Movable::with_auto_despawn(true).should_auto_despawn());
    assert!(!Movable::with_auto_despawn(false).should_auto_despawn());
}

#[test]
fn velocity_constructors() {
    let v = Velocity::none();
    assert_eq!((v.x, v.y), (0, 0));
    let v = Velocity::y(-600);
    assert_eq!((v.x, v.y), (0, -600));
}

#[test]
fn window_boundary_is_inside() {
    let win = WindowSize::new(598_000, 676_000);
    // top bound: 676_000 / 2 + 200_000
    assert!(!win.doesnt_contain(&Pos::new(0, 538_000)));
    assert!(win.doesnt_contain(&Pos::new(0, 538_001)));
    assert!(!win.doesnt_contain(&Pos::new(0, -538_000)));
    assert!(win.doesnt_contain(&Pos::new(0, -538_001)));
    // right bound: 598_000 / 2 + 200_000
    assert!(!win.doesnt_contain(&Pos::new(499_000, 0)));
    assert!(win.doesnt_contain(&Pos::new(499_001, 0)));
    assert!(win.doesnt_contain(&Pos::new(-499_001, 0)));
}

#[test]
fn enemy_count_capacity() {
    let mut c = EnemyCount::default();
    assert_eq!(c.current(), 0);
    let mut k = 0;
    while k < MAX_ENEMIES {
        assert!(c.has_availability());
        c.increment();
        k += 1;
    }
    assert_eq!(c.current(), MAX_ENEMIES);
    assert!(!c.has_availability());
    c.decrement();
    assert!(c.has_availability());
}

#[test]
fn player_state_machine() {
    let mut s = PlayerState::default();
    assert!(!s.alive);
    assert_eq!(s.last_shot, None);
    s.mark_spawned();
    assert!(s.alive);
    s.mark_shot(10_000_000);
    assert!(!s.alive);
    assert_eq!(s.last_shot, Some(10_000_000));
}

#[test]
fn explosion_timer_default() {
    let t = ExplosionTimer::default();
    assert_eq!(t.elapsed_us, 0);
    assert_eq!(t.interval_us, EXPLOSION_INTERVAL_US);
    assert_eq!(t.frame, 0);
}

#[test]
fn sprite_size_new() {
    let s = SpriteSize::new(144_000, 75_000);
    assert_eq!((s.w, s.h), (144_000, 75_000));
}

#[test]
fn cadence_gates_by_period() {
    let mut c = Cadence::new(1_000_000);
    assert!(c.due(0));
    assert!(!c.due(500_000));
    assert!(!c.due(999_999));
    assert!(c.due(1_000_000));
    assert!(!c.due(1_500_000));
    assert!(c.due(2_100_000));
}
