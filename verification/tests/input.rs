use slime_sim::game::{
    cell_work_groups, diffuse_work_groups, InputEvent, InputResponse, InputState,
};

const A: i32 = 4;
const D: i32 = 7;
const S: i32 = 22;
const W: i32 = 26;

#[test]
fn new_state_runs_with_no_keys() {
    let s = InputState::new(1920, 1080);
    assert!(s.is_running());
    assert_eq!(s.window_size(), (1920, 1080));
    assert!(!s.is_key_down(A));
    assert_eq!(s.movement_direction(A, D, W, S), (0, 0));
}

#[test]
fn quit_stops_and_stays_stopped() {
    let mut s = InputState::new(10, 10);
    assert_eq!(s.handle_event(InputEvent::Quit), InputResponse::Nothing);
    assert!(!s.is_running());
    s.handle_event(InputEvent::KeyDown(Some(A)));
    s.handle_event(InputEvent::Resized { width: 3, height: 4 });
    assert!(!s.is_running());
}

#[test]
fn resize_sets_window_size() {
    let mut s = InputState::new(10, 10);
    s.handle_event(InputEvent::Resized { width: 800, height: 600 });
    assert_eq!(s.window_size(), (800, 600));
    s.handle_event(InputEvent::Other);
    assert_eq!(s.window_size(), (800, 600));
}

#[test]
fn wheel_gives_zoom_steps() {
    let mut s = InputState::new(10, 10);
    assert_eq!(
        s.handle_event(InputEvent::MouseWheel { y: 3, flipped: false }),
        InputResponse::Zoom(3)
    );
    assert_eq!(
        s.handle_event(InputEvent::MouseWheel { y: 3, flipped: true }),
        InputResponse::Zoom(-3)
    );
    assert!(s.is_running());
}

#[test]
fn keys_press_and_release() {
    let mut s = InputState::new(10, 10);
    s.handle_event(InputEvent::KeyDown(Some(A)));
    assert!(s.is_key_down(A));
    s.handle_event(InputEvent::KeyDown(None));
    s.handle_event(InputEvent::KeyDown(Some(A)));
    s.handle_event(InputEvent::KeyUp(Some(A)));
    assert!(!s.is_key_down(A));
    s.handle_event(InputEvent::KeyUp(Some(D)));
    assert!(!s.is_key_down(D));
}

#[test]
fn held_keys_give_direction() {
    let mut s = InputState::new(10, 10);
    s.handle_event(InputEvent::KeyDown(Some(A)));
    assert_eq!(s.movement_direction(A, D, W, S), (1, 0));
    s.handle_event(InputEvent::KeyDown(Some(W)));
    assert_eq!(s.movement_direction(A, D, W, S), (1, -1));
    s.handle_event(InputEvent::KeyDown(Some(D)));
    s.handle_event(InputEvent::KeyDown(Some(S)));
    assert_eq!(s.movement_direction(A, D, W, S), (0, 0));
    s.handle_event(InputEvent::KeyUp(Some(A)));
    assert_eq!(s.movement_direction(A, D, W, S), (-1, 0));
}

#[test]
fn dispatch_sizes() {
    assert_eq!(diffuse_work_groups((1920, 1080)), (240, 135, 1));
    assert_eq!(diffuse_work_groups((7, 15)), (0, 1, 1));
    assert_eq!(diffuse_work_groups((-8, 0)), ((u32::MAX - 7) / 8, 0, 1));
    assert_eq!(cell_work_groups(), (976, 1, 1));
}
