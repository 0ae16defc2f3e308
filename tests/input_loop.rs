use interplanetarers::camera::{
    Camera, Direction, Move, DEFAULT_MOUSE_SENSITIVITY, DEFAULT_MOVEMENT_SPEED, DEFAULT_YAW,
    PITCH_LIMIT, ZOOM_MAX, ZOOM_MIN,
};
use interplanetarers::driver::{LoopDriver, RawEvent};
use interplanetarers::input::{
    Action, InputControl, InputEvent, Key, KeyEvent, MouseEvent, MouseTracker,
};
use interplanetarers::lang::ObjectMethods;
use interplanetarers::timing::Timing;

fn scroll(y_offset: i64) -> MouseEvent {
    MouseEvent { x_pos: 0, y_pos: 0, x_offset: 0, y_offset, is_scroll: true }
}

fn cursor(x_offset: i64, y_offset: i64) -> MouseEvent {
    MouseEvent { x_pos: 0, y_pos: 0, x_offset, y_offset, is_scroll: false }
}

fn press(key: Key) -> KeyEvent {
    KeyEvent(key, 0, Action::Press, 0)
}

#[test]
fn timing_first_frame_measures_from_zero() {
    let mut t = Timing::default();
    t.advance(1_500_000);
    assert_eq!(t.delta_time, 1_500_000);
    assert_eq!(t.last_frame, 1_500_000);
    t.advance(1_516_000);
    assert_eq!(t.delta_time, 16_000);
    assert_eq!(t.last_frame, 1_516_000);
}

#[test]
fn key_codes_classify() {
    assert_eq!(Key::from_code(87), Key::W);
    assert_eq!(Key::from_code(65), Key::A);
    assert_eq!(Key::from_code(83), Key::S);
    assert_eq!(Key::from_code(68), Key::D);
    assert_eq!(Key::from_code(256), Key::Escape);
    assert_eq!(Key::from_code(32), Key::Other(32));
}

#[test]
fn first_cursor_sample_has_zero_offset() {
    let mut m = MouseTracker::new();
    let e = m.cursor_moved(400_000, 300_000);
    assert_eq!(e, MouseEvent { x_pos: 400_000, y_pos: 300_000, x_offset: 0, y_offset: 0, is_scroll: false });
    assert_eq!(m.last_mouse_pos, Some((400_000, 300_000)));
}

#[test]
fn later_cursor_sample_inverts_vertical_offset() {
    let mut m = MouseTracker::new();
    m.cursor_moved(100_000, 100_000);
    let e = m.cursor_moved(103_000, 90_000);
    assert_eq!(e.x_offset, 3_000);
    assert_eq!(e.y_offset, 10_000);
    assert!(!e.is_scroll);
}

#[test]
fn reset_makes_next_sample_its_own_baseline() {
    let mut m = MouseTracker::new();
    m.cursor_moved(0, 0);
    m.reset();
    let e = m.cursor_moved(500_000, -200_000);
    assert_eq!((e.x_offset, e.y_offset), (0, 0));
}

#[test]
fn scroll_carries_last_position_or_origin() {
    let mut m = MouseTracker::new();
    let e = m.scrolled(0, 1_000);
    assert_eq!(e, MouseEvent { x_pos: 0, y_pos: 0, x_offset: 0, y_offset: 1_000, is_scroll: true });
    m.cursor_moved(12_000, 34_000);
    let e = m.scrolled(-2_000, 3_000);
    assert_eq!(e, MouseEvent { x_pos: 12_000, y_pos: 34_000, x_offset: -2_000, y_offset: 3_000, is_scroll: true });
    assert_eq!(m.last_mouse_pos, Some((12_000, 34_000)));
}

#[test]
fn camera_defaults() {
    let c = Camera::default();
    assert_eq!(c.yaw, -90_000_000);
    assert_eq!(c.yaw, DEFAULT_YAW);
    assert_eq!(c.pitch, 0);
    assert!(c.constrain_pitch);
    assert_eq!(c.movement_speed, 2_500);
    assert_eq!(c.movement_speed, DEFAULT_MOVEMENT_SPEED);
    assert_eq!(c.mouse_sensitivity, DEFAULT_MOUSE_SENSITIVITY);
    assert_eq!(c.zoom, 45_000_000);
    assert!(c.moves.is_empty());
}

#[test]
fn scroll_zooms_then_clamps_to_one() {
    let mut c = Camera::default();
    c.on_mouse(scroll(10_000), 0);
    assert_eq!(c.zoom, 35_000_000);
    c.on_mouse(scroll(50_000), 0);
    assert_eq!(c.zoom, 1_000_000);
    assert_eq!(c.zoom, ZOOM_MIN);
}

#[test]
fn scroll_back_clamps_to_forty_five() {
    let mut c = Camera::default();
    c.on_mouse(scroll(-3_000), 0);
    assert_eq!(c.zoom, ZOOM_MAX);
    c.on_mouse(scroll(2_500), 0);
    assert_eq!(c.zoom, 42_500_000);
}

#[test]
fn scroll_repairs_out_of_range_zoom() {
    let mut c = Camera::default();
    c.zoom = 90_000_000;
    c.on_mouse(scroll(1_000), 0);
    assert_eq!(c.zoom, ZOOM_MAX);
    c.zoom = -5;
    c.on_mouse(scroll(-1_000), 0);
    assert_eq!(c.zoom, ZOOM_MIN);
}

#[test]
fn scroll_subtracts_from_out_of_range_zoom() {
    let mut c = Camera::default();
    c.zoom = 90_000_000;
    c.on_mouse(scroll(50_000), 0);
    assert_eq!(c.zoom, 40_000_000);
    c.zoom = -10_000_000;
    c.on_mouse(scroll(-13_000), 0);
    assert_eq!(c.zoom, 3_000_000);
}

#[test]
fn zoom_stays_in_range_over_many_scrolls() {
    let mut c = Camera::default();
    let offsets: [i64; 8] = [7_000, 100_000, -3_000, -90_000, 12_345, i64::MAX, i64::MIN, 1];
    for y in offsets {
        c.on_mouse(scroll(y), 0);
        assert!(ZOOM_MIN <= c.zoom && c.zoom <= ZOOM_MAX);
    }
}

#[test]
fn scroll_leaves_angles_alone() {
    let mut c = Camera::default();
    c.on_mouse(scroll(1_000), 0);
    assert_eq!(c.yaw, DEFAULT_YAW);
    assert_eq!(c.pitch, 0);
}

#[test]
fn cursor_move_scales_by_sensitivity() {
    let mut c = Camera::default();
    c.on_mouse(cursor(10_000, -5_000), 16_000);
    assert_eq!(c.yaw, -90_000_000 + 1_000_000);
    assert_eq!(c.pitch, -500_000);
    assert_eq!(c.zoom, ZOOM_MAX);
}

#[test]
fn constrained_pitch_is_clamped() {
    let mut c = Camera::default();
    c.on_mouse(cursor(0, 1_000_000), 0);
    assert_eq!(c.pitch, 89_000_000);
    assert_eq!(c.pitch, PITCH_LIMIT);
    c.on_mouse(cursor(0, -3_000_000), 0);
    assert_eq!(c.pitch, -89_000_000);
}

#[test]
fn constrained_pitch_stays_in_range_over_many_moves() {
    let mut c = Camera::default();
    let offsets: [i64; 6] = [400_000, 900_000, -1_000, -2_000_000, i64::MAX, i64::MIN];
    for y in offsets {
        c.on_mouse(cursor(1_000, y), 0);
        assert!(-PITCH_LIMIT <= c.pitch && c.pitch <= PITCH_LIMIT);
    }
}

#[test]
fn unconstrained_pitch_is_free() {
    let mut c = Camera::default();
    c.constrain_pitch = false;
    c.on_mouse(cursor(0, 1_000_000), 0);
    assert_eq!(c.pitch, 100_000_000);
}

#[test]
fn angles_saturate_at_integer_limits() {
    let mut c = Camera::default();
    c.constrain_pitch = false;
    c.yaw = i64::MAX - 5;
    c.on_mouse(cursor(1_000, i64::MIN), 0);
    assert_eq!(c.yaw, i64::MAX);
    assert_eq!(c.pitch, i64::MIN);
}

#[test]
fn forward_press_steps_two_and_a_half_units() {
    let mut c = Camera::default();
    c.on_keyboard(press(Key::W), 1_000_000);
    assert_eq!(c.moves, vec![Move { direction: Direction::Forward, distance: 2_500_000_000 }]);
}

#[test]
fn each_binding_has_its_direction() {
    let mut c = Camera::default();
    c.on_keyboard(press(Key::S), 2);
    c.on_keyboard(press(Key::A), 3);
    c.on_keyboard(press(Key::D), 4);
    assert_eq!(
        c.moves,
        vec![
            Move { direction: Direction::Backward, distance: 5_000 },
            Move { direction: Direction::Left, distance: 7_500 },
            Move { direction: Direction::Right, distance: 10_000 },
        ]
    );
}

#[test]
fn repeat_release_and_other_keys_do_not_move() {
    let mut c = Camera::default();
    c.on_keyboard(KeyEvent(Key::W, 17, Action::Repeat, 0), 1_000);
    c.on_keyboard(KeyEvent(Key::W, 17, Action::Release, 0), 1_000);
    c.on_keyboard(press(Key::Escape), 1_000);
    c.on_keyboard(press(Key::Other(32)), 1_000);
    assert!(c.moves.is_empty());
    assert_eq!(c.yaw, DEFAULT_YAW);
    assert_eq!(c.zoom, ZOOM_MAX);
}

#[test]
fn take_moves_empties_the_queue() {
    let mut c = Camera::default();
    c.on_keyboard(press(Key::W), 10);
    c.on_keyboard(press(Key::D), 20);
    let taken = c.take_moves();
    assert_eq!(taken.len(), 2);
    assert_eq!(taken[0].direction, Direction::Forward);
    assert_eq!(taken[1].distance, 50_000);
    assert!(c.moves.is_empty());
}

#[test]
fn empty_registry_dispatch_is_a_no_op() {
    let mut d: LoopDriver<Camera> = LoopDriver::new();
    d.begin_frame(5_000);
    d.mouse_event(cursor(3_000, 4_000));
    d.keyboard_event(press(Key::W));
    assert!(d.controls.is_empty());
    assert_eq!(d.timing, Timing { delta_time: 5_000, last_frame: 5_000 });
    assert_eq!(d.mouse.last_mouse_pos, None);
    assert!(!d.should_close);
}

#[test]
fn escape_press_closes_and_is_still_forwarded() {
    let mut d: LoopDriver<Camera> = LoopDriver::new();
    d.register(Camera::default());
    d.keyboard_event(KeyEvent(Key::Escape, 9, Action::Release, 0));
    assert!(!d.should_close);
    d.keyboard_event(press(Key::Escape));
    assert!(d.should_close);
    d.begin_frame(1_000);
    d.keyboard_event(press(Key::W));
    assert_eq!(d.controls[0].moves, vec![Move { direction: Direction::Forward, distance: 2_500_000 }]);
}

#[test]
fn events_reach_every_control_with_frame_delta() {
    let mut d: LoopDriver<Camera> = LoopDriver::new();
    d.register(Camera::default());
    let mut slow = Camera::default();
    slow.movement_speed = 1_000;
    d.register(slow);
    d.begin_frame(2_000_000);
    d.begin_frame(2_020_000);
    assert_eq!(d.timing.delta_time, 20_000);
    assert_eq!(d.process_event(RawEvent::Key(press(Key::A))), None);
    assert_eq!(d.controls[0].moves, vec![Move { direction: Direction::Left, distance: 50_000_000 }]);
    assert_eq!(d.controls[1].moves, vec![Move { direction: Direction::Left, distance: 20_000_000 }]);
}

#[test]
fn raw_cursor_events_are_normalised_before_dispatch() {
    let mut d: LoopDriver<Camera> = LoopDriver::new();
    d.register(Camera::default());
    d.process_event(RawEvent::CursorPos(640_000, 360_000));
    assert_eq!(d.controls[0].yaw, DEFAULT_YAW);
    assert_eq!(d.controls[0].pitch, 0);
    d.process_event(RawEvent::CursorPos(650_000, 350_000));
    assert_eq!(d.controls[0].yaw, DEFAULT_YAW + 1_000_000);
    assert_eq!(d.controls[0].pitch, 1_000_000);
    assert_eq!(d.mouse.last_mouse_pos, Some((650_000, 350_000)));
}

#[test]
fn raw_scroll_and_resize() {
    let mut d: LoopDriver<Camera> = LoopDriver::new();
    d.register(Camera::default());
    assert_eq!(d.process_event(RawEvent::FramebufferSize(1600, 1200)), Some((1600, 1200)));
    assert_eq!(d.process_event(RawEvent::Scroll(0, 4_000)), None);
    assert_eq!(d.controls[0].zoom, 41_000_000);
    assert_eq!(d.process_event(RawEvent::Other), None);
    assert_eq!(d.mouse.last_mouse_pos, None);
    d.request_close();
    assert!(d.should_close);
}

#[test]
fn boxed_handle_holds_the_value() {
    let b: Box<Timing> = ObjectMethods::construct(Timing { delta_time: 3, last_frame: 4 });
    assert_eq!(*b, Timing { delta_time: 3, last_frame: 4 });
}
