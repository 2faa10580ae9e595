use vstd::prelude::*;
use crate::clock::TickCounter;
use crate::spawn::PHASE_SPAN;

verus! {

/// The force that one pressed direction key puts on the player.
pub const THRUST: i32 = 10;

/// While the fire key is down, a bullet leaves at every multiple of this
/// many ticks.
pub const FIRE_PERIOD: u32 = 12;

/// The upward velocity of a bullet; it has no horizontal velocity.
pub const BULLET_SPEED: u32 = 10;

/// The downward force on every enemy.
pub const ENEMY_SINK: u32 = 2;

/// The largest horizontal force of an enemy's sway.
pub const ENEMY_SWAY: u32 = 6;

/// A horizontal force of at least this size, to either side, makes the
/// player's sprite lean.
pub const LEAN_FORCE: u32 = 3;

/// At every multiple of this many ticks the player's sprite is taken from
/// the alternate set of frames.
pub const FLICKER_PERIOD: u32 = 15;

/// The alternate set of frames starts this many indices after the first.
pub const ALTERNATE_FRAMES: usize = 3;

/// Which of the five keys are down.
#[derive(Clone, Copy, Debug, PartialEq, Eq, Structural)]
pub struct Keys {
    pub left: bool,
    pub right: bool,
    pub up: bool,
    pub down: bool,
    pub fire: bool,
}

/// What the keys ask for in one frame.
#[derive(Clone, Copy, Debug, PartialEq, Eq, Structural)]
pub struct Controls {
    /// The force on the player, to the right.
    pub force_x: i32,
    /// The force on the player, upwards.
    pub force_y: i32,
    /// Whether a bullet leaves the player's position.
    pub fire: bool,
}

/// How the horizontal force on the player compares with `LEAN_FORCE`.
#[derive(Clone, Copy, Debug, PartialEq, Eq, Structural)]
pub enum Lean {
    /// `LEAN_FORCE` or more to the left.
    Left,
    /// Weaker than `LEAN_FORCE`.
    Level,
    /// `LEAN_FORCE` or more to the right.
    Right,
}

/// The force of one axis: `THRUST` for the key that pushes forward, less
/// `THRUST` for the key that pushes back.
pub open spec fn axis_force(forward: bool, back: bool) -> int {
    (if forward { THRUST as int } else { 0 }) - (if back { THRUST as int } else { 0 })
}

/// The sprite of a lean in the first set of frames.
pub open spec fn lean_frame(lean: Lean) -> int {
    match lean {
        Lean::Left => 0,
        Lean::Level => 1,
        Lean::Right => 2,
    }
}

/// The step of an enemy's sway: the tick plus the enemy's phase, modulo
/// `PHASE_SPAN`.
pub open spec fn sway_step(tick: TickCounter, phase: u32) -> int {
    (tick.inner + phase) % (PHASE_SPAN as int)
}

/// The input system of the presentation frame. The force on the player is
/// overwritten from the direction keys, opposite keys cancelling; a bullet
/// is fired when the fire key is down on a multiple of `FIRE_PERIOD`.
pub fn handle_keyboard(keys: &Keys, tick: &TickCounter) -> (controls: Controls)
    ensures
        controls.force_x == axis_force(keys.right, keys.left),
        controls.force_y == axis_force(keys.up, keys.down),
        controls.fire == (keys.fire && tick.due(FIRE_PERIOD)),
{
    let right: i32 = if keys.right { THRUST } else { 0 };
    let left: i32 = if keys.left { THRUST } else { 0 };
    let up: i32 = if keys.up { THRUST } else { 0 };
    let down: i32 = if keys.down { THRUST } else { 0 };
    Controls { force_x: right - left, force_y: up - down, fire: keys.fire && tick.is_n(FIRE_PERIOD) }
}

/// The sprite index of the player: by its lean, and from the alternate
/// set of frames at every multiple of `FLICKER_PERIOD`.
pub fn render_player(lean: Lean, tick: &TickCounter) -> (index: usize)
    ensures
        index == lean_frame(lean) + if tick.due(FLICKER_PERIOD) { ALTERNATE_FRAMES as int } else { 0 },
{
    let frame: usize = match lean {
        Lean::Left => 0,
        Lean::Level => 1,
        Lean::Right => 2,
    };
    if tick.is_n(FLICKER_PERIOD) {
        frame + ALTERNATE_FRAMES
    } else {
        frame
    }
}

/// The behaviour of one enemy in the presentation frame: the step of its
/// sway. The host pulls the enemy down with `ENEMY_SINK` and sideways with
/// `ENEMY_SWAY` times the sine of the step.
pub fn enemy_movement(tick: &TickCounter, phase: u32) -> (step: u32)
    ensures
        step == sway_step(*tick, phase),
        step < PHASE_SPAN,
{
    let sum: u64 = tick.inner as u64 + phase as u64;
    (sum % (PHASE_SPAN as u64)) as u32
}

} // verus!
