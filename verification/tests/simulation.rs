use platformer_core::state::AnimationSet;
use platformer_core::state::CharacterState;
use platformer_core::state::FrameCounts;
use platformer_core::state::InputSnapshot;
use platformer_core::state::MotionFlags;
use platformer_core::systems::animation_system;
use platformer_core::systems::gravity_system;
use platformer_core::systems::movement_system;
use platformer_core::systems::state_resolution_system;
use platformer_core::systems::tick;

const DT: u32 = 16666;

fn counts8() -> FrameCounts {
    FrameCounts { idle: 8, running: 8, jumping: 8 }
}

fn held(left: bool, right: bool, jump: bool) -> InputSnapshot {
    InputSnapshot { left_held: left, right_held: right, jump_held: jump, jump_just_released: false }
}

#[test]
fn initial_state_defaults() {
    let s = CharacterState::new();
    assert_eq!(s.position_x, 0);
    assert_eq!(s.position_y, 0);
    assert_eq!(s.horizontal_speed, 30000);
    assert_eq!(s.flags, MotionFlags { idle: true, running: false, jumping: false });
    assert!(s.jump_ready);
    assert!(!s.facing_left);
    assert_eq!(s.timer_elapsed, 0);
    assert_eq!(s.animation_frame_index, 0);
    assert_eq!(s.active_animation, AnimationSet::Idle);
    assert_eq!(MotionFlags::default(), MotionFlags { idle: true, running: false, jumping: false });
    assert_eq!(CharacterState::default(), s);
}

#[test]
fn right_held_one_tick_runs_right() {
    let mut s = CharacterState::new();
    tick(&mut s, held(false, true, false), DT, counts8());
    assert_eq!(s.position_x, 500);
    assert_eq!(s.position_y, 0);
    assert_eq!(s.flags, MotionFlags { idle: false, running: true, jumping: false });
    assert_eq!(s.active_animation, AnimationSet::Running);
    assert!(!s.facing_left);
}

#[test]
fn right_held_strictly_increases_each_tick() {
    let mut s = CharacterState::new();
    let mut previous: i64 = s.position_x;
    for _ in 0..10u32 {
        tick(&mut s, held(false, true, false), DT, counts8());
        assert_eq!(s.position_x, previous + 500);
        assert!(s.position_x > previous);
        previous = s.position_x;
    }
}

#[test]
fn left_held_moves_left_and_faces_left() {
    let mut s = CharacterState::new();
    tick(&mut s, held(true, false, false), DT, counts8());
    assert_eq!(s.position_x, -500);
    assert!(s.facing_left);
    assert_eq!(s.flags, MotionFlags { idle: false, running: true, jumping: false });
    assert_eq!(s.active_animation, AnimationSet::Running);
}

#[test]
fn both_directions_held_right_wins() {
    let mut with_both = CharacterState::new();
    let mut with_right = CharacterState::new();
    tick(&mut with_both, held(true, true, false), DT, counts8());
    tick(&mut with_right, held(false, true, false), DT, counts8());
    assert_eq!(with_both, with_right);
    assert_eq!(with_both.position_x, 500);
    assert!(!with_both.facing_left);
}

#[test]
fn zero_dt_never_advances_frame() {
    let mut s = CharacterState::new();
    s.timer_elapsed = 99999;
    s.animation_frame_index = 3;
    for _ in 0..25u32 {
        animation_system(&mut s, 0, counts8());
        assert_eq!(s.animation_frame_index, 3);
        assert_eq!(s.timer_elapsed, 99999);
    }
}

#[test]
fn frame_advances_once_after_period_over_dt_ticks() {
    let dt: u32 = 20000;
    let mut s = CharacterState::new();
    for expected_ticks in 1..=4u64 {
        tick(&mut s, InputSnapshot::released(), dt, counts8());
        assert_eq!(s.animation_frame_index, 0);
        assert_eq!(s.timer_elapsed, expected_ticks * 20000);
    }
    tick(&mut s, InputSnapshot::released(), dt, counts8());
    assert_eq!(s.animation_frame_index, 1);
    assert_eq!(s.timer_elapsed, 0);
}

#[test]
fn timer_resets_rather_than_carrying_overshoot() {
    let mut s = CharacterState::new();
    tick(&mut s, InputSnapshot::released(), 60000, counts8());
    assert_eq!(s.timer_elapsed, 60000);
    assert_eq!(s.animation_frame_index, 0);
    tick(&mut s, InputSnapshot::released(), 60000, counts8());
    assert_eq!(s.timer_elapsed, 0);
    assert_eq!(s.animation_frame_index, 1);
}

#[test]
fn frame_wraps_to_zero_on_reaching_count() {
    let mut s = CharacterState::new();
    s.animation_frame_index = 7;
    s.timer_elapsed = 99999;
    animation_system(&mut s, 1, counts8());
    assert_eq!(s.animation_frame_index, 0);
    assert_eq!(s.timer_elapsed, 0);
}

#[test]
fn out_of_range_frame_keeps_counting_until_equal() {
    let mut s = CharacterState::new();
    s.animation_frame_index = 9;
    s.timer_elapsed = 99999;
    animation_system(&mut s, 1, counts8());
    assert_eq!(s.animation_frame_index, 10);
}

#[test]
fn jump_from_ground_applies_impulse_then_gravity() {
    let mut s = CharacterState::new();
    tick(&mut s, held(false, false, true), DT, counts8());
    assert_eq!(s.position_y, 5000 - 175);
    assert!(s.flags.jumping);
    assert!(!s.jump_ready);
}

#[test]
fn holding_jump_fires_no_second_impulse() {
    let mut s = CharacterState::new();
    tick(&mut s, held(false, false, true), DT, counts8());
    assert_eq!(s.position_y, 4825);
    tick(&mut s, held(false, false, true), DT, counts8());
    assert_eq!(s.position_y, 4825 - 175);
    assert!(!s.flags.jumping);
    assert!(!s.jump_ready);
}

#[test]
fn releasing_jump_rearms_a_second_jump() {
    let mut s = CharacterState::new();
    tick(&mut s, held(false, false, true), DT, counts8());
    assert!(!s.jump_ready);
    let release = InputSnapshot {
        left_held: false,
        right_held: false,
        jump_held: false,
        jump_just_released: true,
    };
    tick(&mut s, release, DT, counts8());
    assert!(s.jump_ready);
    let before: i64 = s.position_y;
    tick(&mut s, held(false, false, true), DT, counts8());
    assert_eq!(s.position_y, before + 5000 - 175);
    assert!(s.flags.jumping);
}

#[test]
fn gravity_never_drives_below_ground() {
    let mut s = CharacterState::new();
    tick(&mut s, held(false, false, true), DT, counts8());
    for _ in 0..60u32 {
        tick(&mut s, InputSnapshot::released(), DT, counts8());
        assert!(s.position_y >= 0);
    }
    assert_eq!(s.position_y, 0);
}

#[test]
fn gravity_clamps_last_step_at_ground() {
    let mut s = CharacterState::new();
    s.position_y = 100;
    gravity_system(&mut s);
    assert_eq!(s.position_y, 0);
    gravity_system(&mut s);
    assert_eq!(s.position_y, 0);
}

#[test]
fn gravity_subtracts_while_airborne() {
    let mut s = CharacterState::new();
    s.position_y = 5000;
    gravity_system(&mut s);
    assert_eq!(s.position_y, 4825);
}

#[test]
fn releasing_all_keys_goes_idle_same_tick() {
    let mut s = CharacterState::new();
    tick(&mut s, held(false, true, false), DT, counts8());
    assert_eq!(s.active_animation, AnimationSet::Running);
    tick(&mut s, InputSnapshot::released(), DT, counts8());
    assert_eq!(s.flags, MotionFlags { idle: true, running: false, jumping: false });
    assert_eq!(s.active_animation, AnimationSet::Idle);
}

#[test]
fn movement_recomputes_flags_every_tick() {
    let mut s = CharacterState::new();
    movement_system(&mut s, held(false, true, true));
    assert_eq!(s.flags, MotionFlags { idle: false, running: true, jumping: true });
    movement_system(&mut s, InputSnapshot::released());
    assert_eq!(s.flags, MotionFlags { idle: true, running: false, jumping: false });
}

#[test]
fn resolution_keeps_selection_when_no_row_matches() {
    let mut s = CharacterState::new();
    s.flags = MotionFlags { idle: false, running: false, jumping: false };
    s.active_animation = AnimationSet::Jumping;
    state_resolution_system(&mut s);
    assert_eq!(s.active_animation, AnimationSet::Jumping);
}

#[test]
fn resolution_picks_jumping_only_without_idle_and_running() {
    let mut s = CharacterState::new();
    s.flags = MotionFlags { idle: false, running: false, jumping: true };
    state_resolution_system(&mut s);
    assert_eq!(s.active_animation, AnimationSet::Jumping);
}

#[test]
fn resolution_prefers_running_over_jumping() {
    let mut s = CharacterState::new();
    tick(&mut s, held(false, true, true), DT, counts8());
    assert!(s.flags.jumping);
    assert_eq!(s.active_animation, AnimationSet::Running);
}

#[test]
fn facing_is_kept_when_no_direction_is_held() {
    let mut s = CharacterState::new();
    tick(&mut s, held(true, false, false), DT, counts8());
    assert!(s.facing_left);
    tick(&mut s, InputSnapshot::released(), DT, counts8());
    assert!(s.facing_left);
}
