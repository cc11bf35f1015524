use nbody::camera_controller::{CursorGrab, Direction};
use nbody::input::{ElementState, KeyCode, MouseButton};
use nbody::state::{EventResponse, State, WindowEvent};

fn key(code: KeyCode, is_pressed: bool) -> WindowEvent {
    WindowEvent::KeyboardInput { code, is_pressed }
}

#[test]
fn fresh_state_renders_at_once() {
    let s = State::new(0, 600, 8192, 8192, true);
    assert!(s.render());
    assert_eq!((s.surface().width(), s.surface().height()), (1, 600));
    assert!(s.update().is_empty());
}

#[test]
fn escape_press_exits() {
    let mut s = State::new(800, 600, 8192, 8192, true);
    assert!(s.handle_key(KeyCode::Escape, true));
    assert!(!s.handle_key(KeyCode::Escape, false));
    assert_eq!(s.window_event(key(KeyCode::Escape, true), false), EventResponse::Exit);
    assert!(s.update().is_empty());
}

#[test]
fn close_request_exits() {
    let mut s = State::new(800, 600, 8192, 8192, true);
    assert_eq!(s.window_event(WindowEvent::CloseRequested, false), EventResponse::Exit);
}

#[test]
fn other_keys_steer_the_camera() {
    let mut s = State::new(800, 600, 8192, 8192, true);
    assert!(!s.handle_key(KeyCode::KeyW, true));
    assert_eq!(s.window_event(key(KeyCode::KeyA, true), false), EventResponse::Nothing);
    assert_eq!(s.update(), vec![Direction::Forward, Direction::Left]);
    assert_eq!(s.window_event(WindowEvent::RedrawRequested, false), EventResponse::Redraw { render: true });
}

#[test]
fn resize_event_reports_clamped_size() {
    let mut s = State::new(800, 600, 1024, 8192, true);
    assert_eq!(
        s.window_event(WindowEvent::Resized { width: 5000, height: 900 }, false),
        EventResponse::Reconfigure { width: 1024, height: 900 }
    );
    assert_eq!(
        s.window_event(WindowEvent::Resized { width: 0, height: 900 }, false),
        EventResponse::Nothing
    );
    assert_eq!((s.surface().width(), s.surface().height()), (1024, 900));
    assert!(s.resize(300, 200));
    assert_eq!((s.surface().width(), s.surface().height()), (300, 200));
}

#[test]
fn clicks_grab_the_cursor() {
    let mut s = State::new(800, 600, 8192, 8192, true);
    let press = WindowEvent::MouseInput { state: ElementState::Pressed, button: MouseButton::Left };
    assert_eq!(s.window_event(press, false), EventResponse::Cursor(CursorGrab::Capture));
    assert!(s.handle_mouse_motion());
    assert_eq!(s.handle_click(ElementState::Released, MouseButton::Left), Some(CursorGrab::Release));
    assert!(!s.handle_mouse_motion());
    let right = WindowEvent::MouseInput { state: ElementState::Pressed, button: MouseButton::Right };
    assert_eq!(s.window_event(right, false), EventResponse::Nothing);
}

#[test]
fn events_taken_by_the_ui_are_ignored() {
    let mut s = State::new(800, 600, 8192, 8192, true);
    assert_eq!(s.window_event(WindowEvent::CloseRequested, true), EventResponse::Nothing);
    assert_eq!(s.window_event(key(KeyCode::KeyD, true), true), EventResponse::Nothing);
    assert_eq!(
        s.window_event(WindowEvent::Resized { width: 10, height: 10 }, true),
        EventResponse::Nothing
    );
    assert!(s.update().is_empty());
    assert_eq!((s.surface().width(), s.surface().height()), (800, 600));
    assert_eq!(s.window_event(WindowEvent::Other, false), EventResponse::Nothing);
}

#[test]
fn unconfigured_state_waits_for_first_resize() {
    let mut s = State::new(800, 600, 8192, 8192, false);
    assert!(!s.render());
    assert_eq!(s.window_event(WindowEvent::RedrawRequested, false), EventResponse::Redraw { render: false });
    assert_eq!(s.window_event(WindowEvent::Resized { width: 0, height: 0 }, false), EventResponse::Nothing);
    assert!(!s.render());
    s.window_event(WindowEvent::Resized { width: 640, height: 480 }, false);
    assert!(s.render());
}
