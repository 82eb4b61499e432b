//! The character's state and the plain values the host engine hands the core.
//!
//! All quantities are integers so that every motion constant is exact:
//! distances are in hundredths of a world unit and times in microseconds.
//! So a horizontal speed of 30000 is 300 units per second, the jump impulse
//! of 5000 is 50 units, gravity of 175 is 1.75 units per tick, and the
//! animation period of 100000 is a tenth of a second.

use vstd::prelude::*;

verus! {

/// Simulation ticks per second; horizontal motion integrates over this fixed
/// nominal step rather than the measured elapsed time.
pub const TICKS_PER_SECOND: u32 = 60;

/// Default horizontal speed, in hundredths of a unit per second.
pub const DEFAULT_HORIZONTAL_SPEED: u32 = 30000;

/// Upward displacement applied once when a jump fires, in hundredths of a unit.
pub const JUMP_IMPULSE: i64 = 5000;

/// Downward displacement applied each tick while airborne, in hundredths of a unit.
pub const GRAVITY_PER_TICK: i64 = 175;

/// Height of the ground plane, in hundredths of a unit.
pub const GROUND: i64 = 0;

/// Time the animation timer runs before the frame index advances, in microseconds.
pub const ANIMATION_PERIOD_MICROS: u64 = 100000;

/// The named frame sequence currently representing the character's motion.
#[derive(Clone, Copy, Debug, PartialEq, Eq, Structural)]
pub enum AnimationSet {
    Idle,
    Running,
    Jumping,
}

/// The character's motion category for the current tick, as three loose
/// booleans; the movement system recomputes them fully every tick.
#[derive(Clone, Copy, Debug, PartialEq, Eq, Structural)]
pub struct MotionFlags {
    pub idle: bool,
    pub running: bool,
    pub jumping: bool,
}

/// A read-only snapshot of the keyboard, taken once per tick before any
/// system runs.
#[derive(Clone, Copy, Debug, PartialEq, Eq, Structural)]
pub struct InputSnapshot {
    pub left_held: bool,
    pub right_held: bool,
    pub jump_held: bool,
    pub jump_just_released: bool,
}

/// How many frames each animation's sequence holds; supplied by the asset
/// collaborator and never mutated by the core.
#[derive(Clone, Copy, Debug, PartialEq, Eq, Structural)]
pub struct FrameCounts {
    pub idle: u32,
    pub running: u32,
    pub jumping: u32,
}

/// The authoritative record of the one controllable character.
#[derive(Clone, Copy, Debug, PartialEq, Eq, Structural)]
pub struct CharacterState {
    /// World-space horizontal position, in hundredths of a unit.
    pub position_x: i64,
    /// World-space height above the ground plane, in hundredths of a unit.
    pub position_y: i64,
    /// Magnitude of horizontal velocity while moving, in hundredths of a unit
    /// per second.
    pub horizontal_speed: u32,
    /// Motion category recomputed by the movement system every tick.
    pub flags: MotionFlags,
    /// True when a new jump may be initiated; cleared when a jump fires and
    /// set again when the jump key is released.
    pub jump_ready: bool,
    /// True when the sprite faces left.
    pub facing_left: bool,
    /// Time accumulated since the last frame advance, in microseconds.
    pub timer_elapsed: u64,
    /// Current frame within the active animation's sequence.
    pub animation_frame_index: u32,
    /// The frame sequence selected by the state-resolution system.
    pub active_animation: AnimationSet,
}

/// A state is well formed when the character is on or above the ground and
/// the repeating animation timer has not yet reached its period.
pub open spec fn wf(s: CharacterState) -> bool {
    &&& s.position_y >= GROUND
    &&& s.timer_elapsed < ANIMATION_PERIOD_MICROS
}

/// The state a character starts in: at the origin, idle, jump armed, with the
/// default speed and the animation timer and frame index at zero.
pub open spec fn initial_state() -> CharacterState {
    CharacterState {
        position_x: 0,
        position_y: 0,
        horizontal_speed: DEFAULT_HORIZONTAL_SPEED,
        flags: MotionFlags { idle: true, running: false, jumping: false },
        jump_ready: true,
        facing_left: false,
        timer_elapsed: 0,
        animation_frame_index: 0,
        active_animation: AnimationSet::Idle,
    }
}

impl CharacterState {
    /// Builds the starting state.
    pub fn new() -> (s: CharacterState)
        ensures
            s == initial_state(),
            wf(s),
    {
        CharacterState {
            position_x: 0,
            position_y: 0,
            horizontal_speed: DEFAULT_HORIZONTAL_SPEED,
            flags: MotionFlags { idle: true, running: false, jumping: false },
            jump_ready: true,
            facing_left: false,
            timer_elapsed: 0,
            animation_frame_index: 0,
            active_animation: AnimationSet::Idle,
        }
    }
}

impl Default for CharacterState {
    fn default() -> (s: CharacterState)
        ensures
            s == initial_state(),
    {
        CharacterState::new()
    }
}

impl Default for MotionFlags {
    fn default() -> (flags: MotionFlags)
        ensures
            flags == (MotionFlags { idle: true, running: false, jumping: false }),
    {
        MotionFlags { idle: true, running: false, jumping: false }
    }
}

impl InputSnapshot {
    /// A snapshot with no key held and none released this tick.
    pub fn released() -> (inp: InputSnapshot)
        ensures
            inp == no_input(),
    {
        InputSnapshot { left_held: false, right_held: false, jump_held: false, jump_just_released: false }
    }
}

/// A snapshot with no key held and none released this tick.
pub open spec fn no_input() -> InputSnapshot {
    InputSnapshot { left_held: false, right_held: false, jump_held: false, jump_just_released: false }
}

} // verus!
