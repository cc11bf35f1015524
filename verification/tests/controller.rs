use nbody::camera_controller::{CameraController, CursorGrab, Direction};
use nbody::input::{ElementState, KeyCode, MouseButton};

#[test]
fn fresh_controller_moves_nowhere() {
    let c = CameraController::new();
    assert!(c.update_camera().is_empty());
    assert!(!c.handle_mouse_motion());
}

#[test]
fn movement_keys_are_handled() {
    let mut c = CameraController::new();
    for code in [
        KeyCode::KeyW,
        KeyCode::KeyA,
        KeyCode::KeyS,
        KeyCode::KeyD,
        KeyCode::ArrowUp,
        KeyCode::ArrowLeft,
        KeyCode::ArrowDown,
        KeyCode::ArrowRight,
    ] {
        assert!(c.handle_key(code, true));
    }
    assert!(!c.handle_key(KeyCode::Escape, true));
    assert!(!c.handle_key(KeyCode::Other, true));
}

#[test]
fn update_applies_steps_in_fixed_order() {
    let mut c = CameraController::new();
    c.handle_key(KeyCode::KeyA, true);
    c.handle_key(KeyCode::ArrowDown, true);
    c.handle_key(KeyCode::KeyW, true);
    c.handle_key(KeyCode::ArrowRight, true);
    assert_eq!(
        c.update_camera(),
        vec![Direction::Forward, Direction::Backward, Direction::Right, Direction::Left]
    );
}

#[test]
fn release_undoes_press() {
    let mut c = CameraController::new();
    c.handle_key(KeyCode::KeyD, true);
    assert_eq!(c.update_camera(), vec![Direction::Right]);
    c.handle_key(KeyCode::KeyD, false);
    assert!(c.update_camera().is_empty());
}

#[test]
fn arrow_and_letter_share_a_direction() {
    let mut c = CameraController::new();
    c.handle_key(KeyCode::ArrowUp, true);
    assert_eq!(c.update_camera(), vec![Direction::Forward]);
    c.handle_key(KeyCode::KeyW, false);
    assert!(c.update_camera().is_empty());
}

#[test]
fn unbound_key_changes_nothing() {
    let mut c = CameraController::new();
    c.handle_key(KeyCode::KeyS, true);
    assert!(!c.handle_key(KeyCode::Other, false));
    assert_eq!(c.update_camera(), vec![Direction::Backward]);
}

#[test]
fn left_click_captures_and_release_frees_cursor() {
    let mut c = CameraController::new();
    assert_eq!(
        c.handle_click(ElementState::Pressed, MouseButton::Left),
        Some(CursorGrab::Capture)
    );
    assert!(c.handle_mouse_motion());
    assert_eq!(
        c.handle_click(ElementState::Released, MouseButton::Left),
        Some(CursorGrab::Release)
    );
    assert!(!c.handle_mouse_motion());
}

#[test]
fn other_buttons_are_ignored() {
    let mut c = CameraController::new();
    assert_eq!(c.handle_click(ElementState::Pressed, MouseButton::Right), None);
    assert_eq!(c.handle_click(ElementState::Pressed, MouseButton::Middle), None);
    assert!(!c.handle_mouse_motion());
    c.handle_click(ElementState::Pressed, MouseButton::Left);
    assert_eq!(c.handle_click(ElementState::Released, MouseButton::Back), None);
    assert!(c.handle_mouse_motion());
}

#[test]
fn keys_and_clicks_are_independent() {
    let mut c = CameraController::new();
    c.handle_click(ElementState::Pressed, MouseButton::Left);
    c.handle_key(KeyCode::KeyA, true);
    assert!(c.handle_mouse_motion());
    c.handle_click(ElementState::Released, MouseButton::Left);
    assert_eq!(c.update_camera(), vec![Direction::Left]);
}
