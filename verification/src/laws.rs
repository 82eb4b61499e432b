//! Laws of the simulation: properties that hold of every state and input the
//! systems accept, proved from the transition functions in `systems`.

use vstd::prelude::*;

use crate::state::ANIMATION_PERIOD_MICROS;
use crate::state::AnimationSet;
use crate::state::CharacterState;
use crate::state::FrameCounts;
use crate::state::GROUND;
use crate::state::GRAVITY_PER_TICK;
use crate::state::InputSnapshot;
use crate::state::JUMP_IMPULSE;
use crate::state::MotionFlags;
use crate::state::initial_state;
use crate::state::no_input;
use crate::state::wf;
use crate::systems::spec_animation;
use crate::systems::spec_gravity;
use crate::systems::spec_horizontal_step;
use crate::systems::spec_movement;
use crate::systems::spec_resolution;
use crate::systems::spec_tick;

verus! {

/// The state after `n` ticks, each with the same input, elapsed time and
/// frame counts.
pub open spec fn spec_run(
    s: CharacterState,
    inp: InputSnapshot,
    dt_micros: u32,
    counts: FrameCounts,
    n: nat,
) -> CharacterState
    decreases n,
{
    if n == 0 {
        s
    } else {
        spec_tick(spec_run(s, inp, dt_micros, counts, (n - 1) as nat), inp, dt_micros, counts)
    }
}

/// The state after `n` runs of the animation system alone, each with the
/// same elapsed time and frame counts.
pub open spec fn spec_animation_run(
    s: CharacterState,
    dt_micros: u32,
    counts: FrameCounts,
    n: nat,
) -> CharacterState
    decreases n,
{
    if n == 0 {
        s
    } else {
        spec_animation(spec_animation_run(s, dt_micros, counts, (n - 1) as nat), dt_micros, counts)
    }
}

/// The state after `n` runs of the gravity system alone.
pub open spec fn spec_gravity_run(s: CharacterState, n: nat) -> CharacterState
    decreases n,
{
    if n == 0 {
        s
    } else {
        spec_gravity(spec_gravity_run(s, (n - 1) as nat))
    }
}

/// State resolution and gravity read and write disjoint parts of the state,
/// so the pipeline may run them in either order between movement and
/// animation.
pub proof fn lemma_resolution_gravity_commute(s: CharacterState)
    ensures
        spec_gravity(spec_resolution(s)) == spec_resolution(spec_gravity(s)),
{
}

/// Movement always leaves exactly one of the idle and running flags set, so
/// the resolution table's no-match row is unreachable from movement's output.
pub proof fn lemma_movement_flags_exclusive(s: CharacterState, inp: InputSnapshot)
    ensures
        spec_movement(s, inp).flags.idle == !spec_movement(s, inp).flags.running,
{
}

/// While only the move-right key is held and the jump key is untouched, one
/// tick moves the character right by exactly one horizontal step — strictly,
/// whenever the step is positive — leaves it running, and selects the running
/// animation.
pub proof fn lemma_right_held_runs(
    s: CharacterState,
    inp: InputSnapshot,
    dt_micros: u32,
    counts: FrameCounts,
)
    requires
        inp.right_held,
        !inp.left_held,
        !inp.jump_held,
        !inp.jump_just_released,
        s.position_x + spec_horizontal_step(s.horizontal_speed) <= i64::MAX,
    ensures
        spec_tick(s, inp, dt_micros, counts).position_x == s.position_x + spec_horizontal_step(
            s.horizontal_speed,
        ),
        spec_horizontal_step(s.horizontal_speed) > 0 ==> spec_tick(
            s,
            inp,
            dt_micros,
            counts,
        ).position_x > s.position_x,
        spec_tick(s, inp, dt_micros, counts).flags == (MotionFlags {
            idle: false,
            running: true,
            jumping: false,
        }),
        spec_tick(s, inp, dt_micros, counts).active_animation == AnimationSet::Running,
{
    assert(1 * spec_horizontal_step(s.horizontal_speed) == spec_horizontal_step(
        s.horizontal_speed,
    ));
}

/// Holding both direction keys has exactly the effect of holding move-right
/// alone: the move-right key wins the tie.
pub proof fn lemma_both_directions_right_wins(
    s: CharacterState,
    both: InputSnapshot,
    right_only: InputSnapshot,
    dt_micros: u32,
    counts: FrameCounts,
)
    requires
        both.left_held,
        both.right_held,
        right_only.right_held,
        !right_only.left_held,
        both.jump_held == right_only.jump_held,
        both.jump_just_released == right_only.jump_just_released,
    ensures
        spec_tick(s, both, dt_micros, counts) == spec_tick(s, right_only, dt_micros, counts),
{
    assert(spec_movement(s, both) == spec_movement(s, right_only));
}

/// Running the animation system with zero elapsed time changes nothing, so
/// repeated zero-length updates never advance the frame index.
pub proof fn lemma_animation_zero_dt(s: CharacterState, counts: FrameCounts)
    requires
        s.timer_elapsed < ANIMATION_PERIOD_MICROS,
    ensures
        spec_animation(s, 0, counts) == s,
{
}

/// However many times the animation system runs with zero elapsed time, the
/// state is unchanged, so the frame index never advances.
pub proof fn lemma_repeated_zero_dt_never_advances(s: CharacterState, counts: FrameCounts, n: nat)
    requires
        s.timer_elapsed < ANIMATION_PERIOD_MICROS,
    ensures
        spec_animation_run(s, 0, counts, n) == s,
    decreases n,
{
    if n > 0 {
        lemma_repeated_zero_dt_never_advances(s, counts, (n - 1) as nat);
    }
}

/// Starting at rest, when the elapsed time per tick divides the animation
/// period evenly, the idle animation's frame index advances by exactly one
/// after period-over-step ticks with no input, and the timer is reset.
pub proof fn lemma_animation_round_trip(dt_micros: u32, counts: FrameCounts, n: nat)
    requires
        dt_micros > 0,
        n * dt_micros == ANIMATION_PERIOD_MICROS,
        counts.idle >= 2,
    ensures
        spec_run(initial_state(), no_input(), dt_micros, counts, n).animation_frame_index == 1,
        spec_run(initial_state(), no_input(), dt_micros, counts, n).timer_elapsed == 0,
{
    assert(n >= 1) by (nonlinear_arith)
        requires
            dt_micros > 0,
            n * dt_micros == ANIMATION_PERIOD_MICROS,
            ANIMATION_PERIOD_MICROS > 0,
    ;
    assert((n - 1) * dt_micros == n * dt_micros - dt_micros) by (nonlinear_arith);
    lemma_idle_run_accumulates(dt_micros, counts, (n - 1) as nat);
    let rested = spec_run(initial_state(), no_input(), dt_micros, counts, (n - 1) as nat);
    assert(rested.timer_elapsed + dt_micros >= ANIMATION_PERIOD_MICROS);
}

/// After `k` ticks at rest with no input, nothing has changed but the
/// animation timer, which holds `k` steps of elapsed time.
proof fn lemma_idle_run_accumulates(dt_micros: u32, counts: FrameCounts, k: nat)
    requires
        dt_micros > 0,
        k * dt_micros < ANIMATION_PERIOD_MICROS,
    ensures
        spec_run(initial_state(), no_input(), dt_micros, counts, k) == (CharacterState {
            timer_elapsed: (k * dt_micros) as u64,
            ..initial_state()
        }),
    decreases k,
{
    if k == 0 {
        assert(spec_run(initial_state(), no_input(), dt_micros, counts, 0) == (CharacterState {
            timer_elapsed: 0u64,
            ..initial_state()
        }));
    } else {
        assert((k - 1) * dt_micros == k * dt_micros - dt_micros) by (nonlinear_arith);
        lemma_idle_run_accumulates(dt_micros, counts, (k - 1) as nat);
        let prev = spec_run(initial_state(), no_input(), dt_micros, counts, (k - 1) as nat);
        assert(0 * spec_horizontal_step(prev.horizontal_speed) == 0);
        assert(prev.timer_elapsed + dt_micros < ANIMATION_PERIOD_MICROS);
    }
}

/// Jumping off the ground: with the character on the ground and the jump
/// armed, a tick with the jump key held leaves the character at the jump
/// impulse less one step of gravity.
pub proof fn lemma_jump_from_ground(
    s: CharacterState,
    inp: InputSnapshot,
    dt_micros: u32,
    counts: FrameCounts,
)
    requires
        s.position_y == GROUND,
        s.jump_ready,
        inp.jump_held,
    ensures
        spec_tick(s, inp, dt_micros, counts).position_y == JUMP_IMPULSE - GRAVITY_PER_TICK,
{
}

/// Gravity alone never takes a character that is on or above the ground
/// below the ground plane, however many ticks pass.
pub proof fn lemma_gravity_never_below_ground(s: CharacterState, n: nat)
    requires
        s.position_y >= GROUND,
    ensures
        spec_gravity_run(s, n).position_y >= GROUND,
    decreases n,
{
    if n > 0 {
        lemma_gravity_never_below_ground(s, (n - 1) as nat);
    }
}

/// A whole tick keeps the state well formed: the character stays on or above
/// the ground and the animation timer stays within its period.
pub proof fn lemma_tick_preserves_wf(
    s: CharacterState,
    inp: InputSnapshot,
    dt_micros: u32,
    counts: FrameCounts,
)
    requires
        wf(s),
        s.position_y <= i64::MAX - JUMP_IMPULSE,
    ensures
        wf(spec_tick(s, inp, dt_micros, counts)),
{
}

/// Pressing jump while it is armed fires exactly one impulse, marks the
/// character jumping, and disarms the jump.
pub proof fn lemma_jump_press(s: CharacterState, inp: InputSnapshot)
    requires
        s.jump_ready,
        inp.jump_held,
        !inp.jump_just_released,
        s.position_y <= i64::MAX - JUMP_IMPULSE,
    ensures
        spec_movement(s, inp).jump_ready == false,
        spec_movement(s, inp).flags.jumping == true,
        spec_movement(s, inp).position_y == s.position_y + JUMP_IMPULSE,
{
}

/// Holding jump after it has fired adds no further impulse and leaves the
/// jump disarmed until the key is released.
pub proof fn lemma_jump_held_no_repeat(s: CharacterState, inp: InputSnapshot)
    requires
        !s.jump_ready,
        inp.jump_held,
        !inp.jump_just_released,
    ensures
        spec_movement(s, inp).jump_ready == false,
        spec_movement(s, inp).flags.jumping == false,
        spec_movement(s, inp).position_y == s.position_y,
{
}

/// Releasing the jump key rearms the jump, enabling a second jump on the next
/// press.
pub proof fn lemma_jump_release_rearms(s: CharacterState, inp: InputSnapshot)
    requires
        inp.jump_just_released,
    ensures
        spec_movement(s, inp).jump_ready == true,
{
}

/// Releasing every key while running brings the character to idle, with the
/// idle animation selected in the same tick.
pub proof fn lemma_release_all_to_idle(
    s: CharacterState,
    inp: InputSnapshot,
    dt_micros: u32,
    counts: FrameCounts,
)
    requires
        s.flags.running,
        s.active_animation == AnimationSet::Running,
        !inp.left_held,
        !inp.right_held,
        !inp.jump_held,
    ensures
        spec_tick(s, inp, dt_micros, counts).flags == (MotionFlags {
            idle: true,
            running: false,
            jumping: false,
        }),
        spec_tick(s, inp, dt_micros, counts).active_animation == AnimationSet::Idle,
{
}

} // verus!
