use shooter_core::clock::TickCounter;
use shooter_core::frame::{
    enemy_movement, handle_keyboard, render_player, Controls, Keys, Lean, ALTERNATE_FRAMES,
    BULLET_SPEED, ENEMY_SINK, ENEMY_SWAY, FIRE_PERIOD, FLICKER_PERIOD, LEAN_FORCE, THRUST,
};

fn keys(left: bool, right: bool, up: bool, down: bool, fire: bool) -> Keys {
    Keys { left, right, up, down, fire }
}

#[test]
fn frame_constants() {
    assert_eq!((THRUST, FIRE_PERIOD, BULLET_SPEED), (10, 12, 10));
    assert_eq!((ENEMY_SINK, ENEMY_SWAY), (2, 6));
    assert_eq!((LEAN_FORCE, FLICKER_PERIOD, ALTERNATE_FRAMES), (3, 15, 3));
}

#[test]
fn no_key_no_force() {
    let controls = handle_keyboard(&keys(false, false, false, false, false), &TickCounter::new());
    assert_eq!(controls, Controls { force_x: 0, force_y: 0, fire: false });
}

#[test]
fn each_direction_key_pushes_by_ten() {
    let tick = TickCounter { inner: 5 };
    assert_eq!(handle_keyboard(&keys(false, true, false, false, false), &tick).force_x, 10);
    assert_eq!(handle_keyboard(&keys(true, false, false, false, false), &tick).force_x, -10);
    assert_eq!(handle_keyboard(&keys(false, false, true, false, false), &tick).force_y, 10);
    assert_eq!(handle_keyboard(&keys(false, false, false, true, false), &tick).force_y, -10);
}

#[test]
fn opposite_keys_cancel() {
    let controls = handle_keyboard(&keys(true, true, true, true, false), &TickCounter { inner: 5 });
    assert_eq!(controls, Controls { force_x: 0, force_y: 0, fire: false });
    let controls = handle_keyboard(&keys(true, false, true, true, false), &TickCounter { inner: 5 });
    assert_eq!(controls, Controls { force_x: -10, force_y: 0, fire: false });
}

#[test]
fn fire_needs_the_key_and_a_twelfth_tick() {
    let held = keys(false, false, false, false, true);
    let released = keys(false, false, false, false, false);
    assert!(handle_keyboard(&held, &TickCounter { inner: 0 }).fire);
    assert!(handle_keyboard(&held, &TickCounter { inner: 12 }).fire);
    assert!(handle_keyboard(&held, &TickCounter { inner: 144 }).fire);
    assert!(!handle_keyboard(&held, &TickCounter { inner: 13 }).fire);
    assert!(!handle_keyboard(&held, &TickCounter { inner: 11 }).fire);
    assert!(!handle_keyboard(&released, &TickCounter { inner: 12 }).fire);
}

#[test]
fn sprite_follows_the_lean() {
    let tick = TickCounter { inner: 7 };
    assert_eq!(render_player(Lean::Left, &tick), 0);
    assert_eq!(render_player(Lean::Level, &tick), 1);
    assert_eq!(render_player(Lean::Right, &tick), 2);
}

#[test]
fn every_fifteenth_tick_uses_the_alternate_frames() {
    for tick in [0u32, 15, 30, 4500] {
        let tick = TickCounter { inner: tick };
        assert_eq!(render_player(Lean::Left, &tick), 3);
        assert_eq!(render_player(Lean::Level, &tick), 4);
        assert_eq!(render_player(Lean::Right, &tick), 5);
    }
    assert_eq!(render_player(Lean::Level, &TickCounter { inner: 16 }), 1);
}

#[test]
fn sway_step_adds_tick_and_phase() {
    assert_eq!(enemy_movement(&TickCounter { inner: 0 }, 0), 0);
    assert_eq!(enemy_movement(&TickCounter { inner: 10 }, 5), 15);
    assert_eq!(enemy_movement(&TickCounter { inner: 59 }, 1), 0);
    assert_eq!(enemy_movement(&TickCounter { inner: 100 }, 59), 39);
    assert_eq!(enemy_movement(&TickCounter { inner: 120 }, 0), 0);
}

#[test]
fn sway_step_near_the_highest_tick() {
    assert_eq!(enemy_movement(&TickCounter { inner: u32::MAX }, 0), 15);
    assert_eq!(enemy_movement(&TickCounter { inner: u32::MAX }, 59), 14);
    assert_eq!(enemy_movement(&TickCounter { inner: u32::MAX }, u32::MAX), 30);
}

#[test]
fn enemies_with_different_phases_sway_apart() {
    let tick = TickCounter { inner: 33 };
    let first = enemy_movement(&tick, 3);
    let second = enemy_movement(&tick, 4);
    assert_ne!(first, second);
    let force_first = 6.0f32 * (first as f32).sin();
    let force_second = 6.0f32 * (second as f32).sin();
    assert_ne!(force_first, force_second);
    assert!(force_first.abs() <= 6.0 && force_second.abs() <= 6.0);
}
