//! The per-tick systems and the fixed pipeline that orders them.
//!
//! Each system has a specification-level transition function that says
//! exactly what it does to the character's state, and an executable body
//! proved equal to it. One tick runs movement, then state resolution, then
//! gravity, then animation; resolution and gravity depend only on movement's
//! output, while animation must follow resolution so that the frame index
//! wraps against the newly selected animation's frame count.

use vstd::prelude::*;

use crate::state::ANIMATION_PERIOD_MICROS;
use crate::state::AnimationSet;
use crate::state::CharacterState;
use crate::state::FrameCounts;
use crate::state::GRAVITY_PER_TICK;
use crate::state::GROUND;
use crate::state::InputSnapshot;
use crate::state::JUMP_IMPULSE;
use crate::state::MotionFlags;
use crate::state::TICKS_PER_SECOND;
use crate::state::wf;

verus! {

/// Horizontal displacement of one tick at the given speed: the speed times
/// the fixed nominal step of one sixtieth of a second.
pub open spec fn spec_horizontal_step(speed: u32) -> int {
    speed as int / TICKS_PER_SECOND as int
}

/// Direction of horizontal motion this tick; when both keys are held the
/// move-right key wins.
pub open spec fn spec_direction(inp: InputSnapshot) -> int {
    if inp.right_held {
        1
    } else if inp.left_held {
        -1
    } else {
        0
    }
}

/// A jump fires exactly when the jump key is held while the jump is armed.
pub open spec fn spec_jump_fires(s: CharacterState, inp: InputSnapshot) -> bool {
    s.jump_ready && inp.jump_held
}

/// What the movement system does: recompute the motion flags from the held
/// keys, face the way of motion, apply at most one jump impulse gated by
/// `jump_ready`, rearm the jump on release, and step the horizontal position.
pub open spec fn spec_movement(s: CharacterState, inp: InputSnapshot) -> CharacterState {
    let moving = inp.left_held || inp.right_held;
    let dx = spec_direction(inp) * spec_horizontal_step(s.horizontal_speed);
    let dy: int = if spec_jump_fires(s, inp) {
        JUMP_IMPULSE as int
    } else {
        0
    };
    CharacterState {
        position_x: (s.position_x + dx) as i64,
        position_y: (s.position_y + dy) as i64,
        flags: MotionFlags { idle: !moving, running: moving, jumping: spec_jump_fires(s, inp) },
        facing_left: if inp.right_held {
            false
        } else if inp.left_held {
            true
        } else {
            s.facing_left
        },
        jump_ready: if inp.jump_just_released {
            true
        } else if spec_jump_fires(s, inp) {
            false
        } else {
            s.jump_ready
        },
        ..s
    }
}

/// What the gravity system does: while the character is strictly above the
/// ground it falls by one gravity step, stopping at the ground plane; on or
/// below the ground nothing changes.
pub open spec fn spec_gravity(s: CharacterState) -> CharacterState {
    if s.position_y > GROUND {
        let fallen: int = s.position_y - GRAVITY_PER_TICK;
        CharacterState {
            position_y: if fallen >= GROUND {
                fallen as i64
            } else {
                GROUND
            },
            ..s
        }
    } else {
        s
    }
}

/// What the state-resolution system does: select the animation matching the
/// motion flags, running before idle before jumping, and keep the current
/// selection when no row of the precedence table matches.
pub open spec fn spec_resolution(s: CharacterState) -> CharacterState {
    CharacterState {
        active_animation: if s.flags.running && !s.flags.idle {
            AnimationSet::Running
        } else if !s.flags.running && s.flags.idle {
            AnimationSet::Idle
        } else if s.flags.jumping {
            AnimationSet::Jumping
        } else {
            s.active_animation
        },
        ..s
    }
}

/// The frame count of the given animation's sequence.
pub open spec fn spec_frame_count(counts: FrameCounts, animation: AnimationSet) -> u32 {
    match animation {
        AnimationSet::Idle => counts.idle,
        AnimationSet::Running => counts.running,
        AnimationSet::Jumping => counts.jumping,
    }
}

/// What the animation system does: accumulate the measured elapsed time; once
/// it reaches the period, reset the timer and advance the frame index,
/// wrapping to zero when the new index equals the active animation's frame
/// count.
pub open spec fn spec_animation(s: CharacterState, dt_micros: u32, counts: FrameCounts) -> CharacterState {
    let elapsed: int = s.timer_elapsed + dt_micros;
    if elapsed >= ANIMATION_PERIOD_MICROS {
        let next: int = s.animation_frame_index + 1;
        CharacterState {
            timer_elapsed: 0,
            animation_frame_index: if next == spec_frame_count(counts, s.active_animation) {
                0
            } else {
                next as u32
            },
            ..s
        }
    } else {
        CharacterState { timer_elapsed: elapsed as u64, ..s }
    }
}

/// One whole tick: movement, then state resolution and gravity, then
/// animation.
pub open spec fn spec_tick(s: CharacterState, inp: InputSnapshot, dt_micros: u32, counts: FrameCounts) -> CharacterState {
    spec_animation(spec_gravity(spec_resolution(spec_movement(s, inp))), dt_micros, counts)
}

impl FrameCounts {
    /// The frame count of the given animation's sequence.
    pub fn for_animation(&self, animation: AnimationSet) -> (count: u32)
        ensures
            count == spec_frame_count(*self, animation),
    {
        match animation {
            AnimationSet::Idle => self.idle,
            AnimationSet::Running => self.running,
            AnimationSet::Jumping => self.jumping,
        }
    }
}

/// Movement system: consumes the input snapshot and updates position, motion
/// flags, facing and jump readiness, as `spec_movement` says.
pub fn movement_system(s: &mut CharacterState, inp: InputSnapshot)
    requires
        old(s).position_x + spec_horizontal_step(old(s).horizontal_speed) <= i64::MAX,
        old(s).position_x - spec_horizontal_step(old(s).horizontal_speed) >= i64::MIN,
        old(s).position_y <= i64::MAX - JUMP_IMPULSE,
    ensures
        *final(s) == spec_movement(*old(s), inp),
{
    s.flags.idle = true;
    s.flags.running = false;
    s.flags.jumping = false;

    if inp.left_held {
        s.flags.idle = false;
        s.flags.running = true;
        s.facing_left = true;
    }
    if inp.right_held {
        s.flags.idle = false;
        s.flags.running = true;
        s.facing_left = false;
    }

    if s.jump_ready && inp.jump_held {
        s.flags.jumping = true;
        s.position_y = s.position_y + JUMP_IMPULSE;
        s.jump_ready = false;
    }
    if inp.jump_just_released {
        s.jump_ready = true;
    }

    let step: i64 = (s.horizontal_speed / TICKS_PER_SECOND) as i64;
    proof {
        assert(1 * spec_horizontal_step(old(s).horizontal_speed)
            == spec_horizontal_step(old(s).horizontal_speed));
        assert(-1 * spec_horizontal_step(old(s).horizontal_speed)
            == -spec_horizontal_step(old(s).horizontal_speed));
    }
    if inp.right_held {
        s.position_x = s.position_x + step;
    } else if inp.left_held {
        s.position_x = s.position_x - step;
    }
}

/// Gravity system: lowers an airborne character by one gravity step, never
/// past the ground plane, as `spec_gravity` says.
pub fn gravity_system(s: &mut CharacterState)
    ensures
        *final(s) == spec_gravity(*old(s)),
        old(s).position_y >= GROUND ==> final(s).position_y >= GROUND,
{
    if s.position_y > GROUND {
        if s.position_y - GRAVITY_PER_TICK >= GROUND {
            s.position_y = s.position_y - GRAVITY_PER_TICK;
        } else {
            s.position_y = GROUND;
        }
    }
}

/// State-resolution system: selects the animation matching the motion flags,
/// as `spec_resolution` says.
pub fn state_resolution_system(s: &mut CharacterState)
    ensures
        *final(s) == spec_resolution(*old(s)),
{
    if s.flags.running && !s.flags.idle {
        s.active_animation = AnimationSet::Running;
    } else if !s.flags.running && s.flags.idle {
        s.active_animation = AnimationSet::Idle;
    } else if s.flags.jumping {
        s.active_animation = AnimationSet::Jumping;
    }
}

/// Animation system: advances the repeating timer by the measured elapsed
/// time and, on expiry, the frame index, as `spec_animation` says; the timer
/// stays within its period.
pub fn animation_system(s: &mut CharacterState, dt_micros: u32, counts: FrameCounts)
    requires
        old(s).timer_elapsed < ANIMATION_PERIOD_MICROS,
        old(s).animation_frame_index < u32::MAX,
    ensures
        *final(s) == spec_animation(*old(s), dt_micros, counts),
        final(s).timer_elapsed < ANIMATION_PERIOD_MICROS,
{
    let elapsed: u64 = s.timer_elapsed + (dt_micros as u64);
    if elapsed >= ANIMATION_PERIOD_MICROS {
        s.timer_elapsed = 0;
        let next: u32 = s.animation_frame_index + 1;
        if next == counts.for_animation(s.active_animation) {
            s.animation_frame_index = 0;
        } else {
            s.animation_frame_index = next;
        }
    } else {
        s.timer_elapsed = elapsed;
    }
}

/// One whole tick in the fixed pipeline order, preserving well-formedness.
pub fn tick(s: &mut CharacterState, inp: InputSnapshot, dt_micros: u32, counts: FrameCounts)
    requires
        wf(*old(s)),
        old(s).position_x + spec_horizontal_step(old(s).horizontal_speed) <= i64::MAX,
        old(s).position_x - spec_horizontal_step(old(s).horizontal_speed) >= i64::MIN,
        old(s).position_y <= i64::MAX - JUMP_IMPULSE,
        old(s).animation_frame_index < u32::MAX,
    ensures
        *final(s) == spec_tick(*old(s), inp, dt_micros, counts),
        wf(*final(s)),
{
    movement_system(s, inp);
    state_resolution_system(s);
    gravity_system(s);
    animation_system(s, dt_micros, counts);
}

} // verus!
