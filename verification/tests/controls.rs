use platformer_controls::AimMarkerAction;
use platformer_controls::CursorFrame;
use platformer_controls::Dash;
use platformer_controls::DashDirection;
use platformer_controls::DashTimer;
use platformer_controls::KeySnapshot;
use platformer_controls::Movement;
use platformer_controls::cursor_frame;
use platformer_controls::just_pressed;

fn keys(
    up_was: bool,
    up: bool,
    down_was: bool,
    down: bool,
    left_was: bool,
    left: bool,
    right_was: bool,
    right: bool,
) -> KeySnapshot {
    KeySnapshot {
        up_was_pressed: up_was,
        up_pressed: up,
        down_was_pressed: down_was,
        down_pressed: down,
        left_was_pressed: left_was,
        left_pressed: left,
        right_was_pressed: right_was,
        right_pressed: right,
    }
}

fn held(up: bool, down: bool, left: bool, right: bool) -> KeySnapshot {
    keys(up, up, down, down, left, left, right, right)
}

#[test]
fn just_pressed_is_edge_triggered() {
    assert!(!just_pressed(false, false));
    assert!(just_pressed(false, true));
    assert!(!just_pressed(true, true));
    assert!(!just_pressed(true, false));
}

#[test]
fn axis_right_only_is_plus_one() {
    let mut m = Movement::default();
    m.keyboard_controls(&held(false, false, false, true));
    assert_eq!(m.x, 1);
}

#[test]
fn axis_left_only_is_minus_one() {
    let mut m = Movement::default();
    m.keyboard_controls(&held(false, false, true, false));
    assert_eq!(m.x, -1);
}

#[test]
fn axis_both_held_cancel_to_zero() {
    let mut m = Movement::default();
    m.keyboard_controls(&held(false, false, true, true));
    assert_eq!(m.x, 0);
}

#[test]
fn axis_neither_held_is_zero() {
    let mut m = Movement::default();
    m.x = 1;
    m.keyboard_controls(&held(false, false, false, false));
    assert_eq!(m.x, 0);
}

#[test]
fn axis_replaces_stored_value_each_frame() {
    let mut m = Movement::default();
    m.keyboard_controls(&held(false, false, false, true));
    assert_eq!(m.x, 1);
    m.keyboard_controls(&held(false, false, true, false));
    assert_eq!(m.x, -1);
}

#[test]
fn jump_pressed_one_frame_then_released() {
    let mut m = Movement::default();
    assert!(!m.jump);

    // frame 1: up newly pressed
    m.keyboard_controls(&keys(false, true, false, false, false, false, false, false));
    assert!(m.jump);

    // frame 2: up released; the flag is not auto-cleared by this module
    m.keyboard_controls(&keys(true, false, false, false, false, false, false, false));
    assert!(m.jump);

    // the consumer resets the flag once the value is read
    m.jump = false;

    // frame 3: up still unpressed, no new jump
    m.keyboard_controls(&keys(false, false, false, false, false, false, false, false));
    assert!(!m.jump);
}

#[test]
fn jump_holding_across_frames_does_not_retrigger() {
    let mut m = Movement::default();

    // frame 1: up newly pressed
    m.keyboard_controls(&keys(false, true, false, false, false, false, false, false));
    assert!(m.jump);

    // consumer reads and resets the flag
    m.jump = false;

    // frame 2: up still held; no edge, no re-trigger
    m.keyboard_controls(&keys(true, true, false, false, false, false, false, false));
    assert!(!m.jump);

    // frame 3: released then re-pressed fires again
    m.keyboard_controls(&keys(true, false, false, false, false, false, false, false));
    assert!(!m.jump);
    m.keyboard_controls(&keys(false, true, false, false, false, false, false, false));
    assert!(m.jump);
}

#[test]
fn fast_fall_is_level_triggered_and_not_cleared_here() {
    let mut m = Movement::default();
    m.keyboard_controls(&held(false, true, false, false));
    assert!(m.is_fast_falling);

    // down released; cancellation is the consumer's responsibility
    m.keyboard_controls(&held(false, false, false, false));
    assert!(m.is_fast_falling);
}

#[test]
fn keyboard_leaves_consumer_fields_alone() {
    let mut m = Movement::default();
    m.jumped = 2;
    m.lock_x = true;
    m.keyboard_controls(&held(true, true, true, true));
    assert_eq!(m.jumped, 2);
    assert!(m.lock_x);
}

#[test]
fn movement_default_is_zeroed() {
    let m = Movement::default();
    assert_eq!(m.x, 0);
    assert!(!m.jump);
    assert_eq!(m.jumped, 0);
    assert!(!m.is_fast_falling);
    assert!(!m.lock_x);
}

#[test]
fn dash_right_and_up_pressed_from_zero() {
    let mut d = Dash::default();
    // right and up arrows both newly pressed in the same frame
    d.arrows(&keys(false, true, false, false, false, false, false, true));
    assert_eq!(d.direction.x, 1);
    assert_eq!(d.direction.y, 1);
    assert!(d.trying_to_dash);
}

#[test]
fn dash_opposite_presses_cancel_and_leave_state() {
    let mut d = Dash::default();
    // left and right arrows both newly pressed: sum is the zero vector
    d.arrows(&keys(false, false, false, false, false, true, false, true));
    assert_eq!(d.direction.x, 0);
    assert_eq!(d.direction.y, 0);
    assert!(!d.trying_to_dash);
}

#[test]
fn dash_accumulates_from_stored_direction() {
    let mut d = Dash::default();
    d.arrows(&keys(false, false, false, false, false, false, false, true));
    assert_eq!((d.direction.x, d.direction.y), (1, 0));
    assert!(d.trying_to_dash);

    // next frame: up arrow newly pressed accumulates onto the stored (1, 0)
    d.arrows(&keys(false, true, false, false, false, false, false, false));
    assert_eq!((d.direction.x, d.direction.y), (1, 1));
    assert!(d.trying_to_dash);
}

#[test]
fn dash_edge_press_cancelling_stored_direction_is_ignored() {
    let mut d = Dash {
        trying_to_dash: false,
        is_dashing: false,
        dashed: 0,
        direction: DashDirection { x: 1, y: 0 },
        duration: DashTimer::default(),
    };
    // left arrow newly pressed: 1 + (-1) == 0, the frame changes nothing
    d.arrows(&keys(false, false, false, false, false, true, false, false));
    assert_eq!((d.direction.x, d.direction.y), (1, 0));
    assert!(!d.trying_to_dash);
}

#[test]
fn dash_holding_arrows_adds_nothing() {
    let mut d = Dash::default();
    d.arrows(&keys(false, false, false, false, false, false, false, true));
    assert_eq!((d.direction.x, d.direction.y), (1, 0));

    // right arrow still held: no edge, nothing accumulates
    d.arrows(&keys(false, false, false, false, false, false, true, true));
    assert_eq!((d.direction.x, d.direction.y), (1, 0));
}

#[test]
fn dash_direction_add_is_componentwise() {
    let a = DashDirection { x: 2, y: -1 };
    let b = DashDirection { x: -3, y: 4 };
    let r = a.add(&b);
    assert_eq!(r.x, -1);
    assert_eq!(r.y, 3);
}

#[test]
fn dash_direction_is_empty_only_at_zero() {
    assert!(DashDirection { x: 0, y: 0 }.is_empty());
    assert!(!DashDirection { x: 1, y: 0 }.is_empty());
    assert!(!DashDirection { x: 0, y: -1 }.is_empty());
}

#[test]
fn diagonal_magnitude_is_sqrt_two_times_cardinal() {
    let cardinal = DashDirection { x: 1, y: 0 };
    let diagonal = DashDirection { x: 1, y: 1 };
    let cardinal_mag_sq = cardinal.x * cardinal.x + cardinal.y * cardinal.y;
    let diagonal_mag_sq = diagonal.x * diagonal.x + diagonal.y * diagonal.y;
    assert_eq!(cardinal_mag_sq, 1);
    assert_eq!(diagonal_mag_sq, 2);
    assert_eq!(diagonal_mag_sq, 2 * cardinal_mag_sq);

    // the un-normalised diagonal is sqrt(2) times as long as a cardinal
    let ratio = (diagonal_mag_sq as f64).sqrt() / (cardinal_mag_sq as f64).sqrt();
    assert!((ratio - std::f64::consts::SQRT_2).abs() < 1e-12);
}

#[test]
fn dash_default_is_idle() {
    let d = Dash::default();
    assert!(!d.trying_to_dash);
    assert!(!d.is_dashing);
    assert_eq!(d.dashed, 0);
    assert_eq!((d.direction.x, d.direction.y), (0, 0));
    assert_eq!(d.duration.elapsed_ns, 0);
    assert_eq!(d.duration.duration_ns, 0);
}

#[test]
fn timer_advances_by_delta_and_saturates() {
    let mut t = DashTimer { elapsed_ns: 0, duration_ns: 100 };
    t.tick(30);
    assert_eq!(t.elapsed_ns, 30);
    assert!(!t.finished());
    t.tick(30);
    assert_eq!(t.elapsed_ns, 60);
    t.tick(1_000);
    assert_eq!(t.elapsed_ns, 100);
    assert!(t.finished());
}

#[test]
fn apply_time_ticks_only_the_timer() {
    let mut d = Dash {
        trying_to_dash: true,
        is_dashing: true,
        dashed: 1,
        direction: DashDirection { x: 1, y: 1 },
        duration: DashTimer { elapsed_ns: 10, duration_ns: 50 },
    };
    d.apply_time(25);
    assert_eq!(d.duration.elapsed_ns, 35);
    assert_eq!(d.duration.duration_ns, 50);
    assert!(d.trying_to_dash);
    assert!(d.is_dashing);
    assert_eq!(d.dashed, 1);
    assert_eq!((d.direction.x, d.direction.y), (1, 1));

    d.apply_time(100);
    assert_eq!(d.duration.elapsed_ns, 50);
}

#[test]
fn cursor_in_window_spawns_missing_marker() {
    let f = cursor_frame(true, false);
    assert_eq!(
        f,
        CursorFrame { marker: AimMarkerAction::Spawn, store_position: true }
    );
}

#[test]
fn cursor_in_window_keeps_existing_marker() {
    let f = cursor_frame(true, true);
    assert_eq!(
        f,
        CursorFrame { marker: AimMarkerAction::Keep, store_position: true }
    );
}

#[test]
fn cursor_outside_despawns_present_marker() {
    let f = cursor_frame(false, true);
    assert_eq!(
        f,
        CursorFrame { marker: AimMarkerAction::Despawn, store_position: false }
    );
}

#[test]
fn cursor_outside_with_no_marker_does_nothing() {
    let f = cursor_frame(false, false);
    assert_eq!(
        f,
        CursorFrame { marker: AimMarkerAction::Keep, store_position: false }
    );
}
