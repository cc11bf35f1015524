//! Keyboard and mouse state of the free-flying camera.
use vstd::prelude::*;

use crate::input::{ElementState, KeyCode, MouseButton};

verus! {

/// A direction in which the camera can be moved along its own axes.
#[derive(Clone, Copy, Debug, PartialEq, Eq, Structural)]
pub enum Direction {
    Forward,
    Backward,
    Right,
    Left,
}

/// What the window should do with the mouse cursor after a click.
#[derive(Clone, Copy, Debug, PartialEq, Eq, Structural)]
pub enum CursorGrab {
    /// Lock (or at least confine) the cursor to the window and hide it.
    Capture,
    /// Free the cursor and show it again.
    Release,
}

/// The mathematical state of a [`CameraController`]: which movement keys and
/// whether the steering mouse button are held.
pub struct ControllerModel {
    pub forward: bool,
    pub backward: bool,
    pub right: bool,
    pub left: bool,
    pub mouse_held: bool,
}

impl ControllerModel {
    /// Whether the key for direction `d` is held.
    pub open spec fn pressed(self, d: Direction) -> bool {
        match d {
            Direction::Forward => self.forward,
            Direction::Backward => self.backward,
            Direction::Right => self.right,
            Direction::Left => self.left,
        }
    }

    /// The state after the key for `d` went down (`is_pressed`) or up.
    pub open spec fn with_direction(self, d: Direction, is_pressed: bool) -> ControllerModel {
        match d {
            Direction::Forward => ControllerModel { forward: is_pressed, ..self },
            Direction::Backward => ControllerModel { backward: is_pressed, ..self },
            Direction::Right => ControllerModel { right: is_pressed, ..self },
            Direction::Left => ControllerModel { left: is_pressed, ..self },
        }
    }

    /// The state after a key event: only the four movement directions react.
    pub open spec fn after_key(self, code: KeyCode, is_pressed: bool) -> ControllerModel {
        match key_direction(code) {
            Some(d) => self.with_direction(d, is_pressed),
            None => self,
        }
    }

    /// The state after a mouse button event: only the left button steers.
    pub open spec fn after_click(self, state: ElementState, button: MouseButton) -> ControllerModel {
        if button == MouseButton::Left {
            ControllerModel { mouse_held: state == ElementState::Pressed, ..self }
        } else {
            self
        }
    }

    /// The translations that one camera update applies, in the order it
    /// applies them: forward, backward, right, left, each only while held.
    pub open spec fn steps(self) -> Seq<Direction> {
        (if self.forward { seq![Direction::Forward] } else { Seq::empty() })
            + (if self.backward { seq![Direction::Backward] } else { Seq::empty() })
            + (if self.right { seq![Direction::Right] } else { Seq::empty() })
            + (if self.left { seq![Direction::Left] } else { Seq::empty() })
    }
}

/// The movement direction bound to a key: W or the up arrow move forward,
/// A or the left arrow left, S or the down arrow backward, D or the right
/// arrow right. Other keys are not bound.
pub open spec fn key_direction(code: KeyCode) -> Option<Direction> {
    match code {
        KeyCode::KeyW | KeyCode::ArrowUp => Some(Direction::Forward),
        KeyCode::KeyA | KeyCode::ArrowLeft => Some(Direction::Left),
        KeyCode::KeyS | KeyCode::ArrowDown => Some(Direction::Backward),
        KeyCode::KeyD | KeyCode::ArrowRight => Some(Direction::Right),
        _ => None,
    }
}

/// The cursor request that a click of the left button makes.
pub open spec fn grab_for(state: ElementState) -> CursorGrab {
    match state {
        ElementState::Pressed => CursorGrab::Capture,
        ElementState::Released => CursorGrab::Release,
    }
}

/// Tracks the held movement keys and the steering mouse button.
///
/// The speed, the mouse sensitivity and the accumulated mouse motion are
/// floating-point values and stay with the caller, which also applies the
/// translations and rotations that [`CameraController::update_camera`] asks
/// for.
pub struct CameraController {
    is_forward_pressed: bool,
    is_backward_pressed: bool,
    is_right_pressed: bool,
    is_left_pressed: bool,
    is_mouse_button_pressed: bool,
}

impl View for CameraController {
    type V = ControllerModel;

    closed spec fn view(&self) -> ControllerModel {
        ControllerModel {
            forward: self.is_forward_pressed,
            backward: self.is_backward_pressed,
            right: self.is_right_pressed,
            left: self.is_left_pressed,
            mouse_held: self.is_mouse_button_pressed,
        }
    }
}

impl CameraController {
    /// The state with no key and no button held.
    pub open spec fn new_model() -> ControllerModel {
        ControllerModel {
            forward: false,
            backward: false,
            right: false,
            left: false,
            mouse_held: false,
        }
    }

    /// A controller with no key and no button held.
    pub fn new() -> (c: Self)
        ensures
            c@ == Self::new_model(),
    {
        CameraController {
            is_forward_pressed: false,
            is_backward_pressed: false,
            is_right_pressed: false,
            is_left_pressed: false,
            is_mouse_button_pressed: false,
        }
    }

    /// Records a key going down or up. Returns whether the key is one of
    /// the movement keys; any other key leaves the controller unchanged.
    pub fn handle_key(&mut self, code: KeyCode, is_pressed: bool) -> (handled: bool)
        ensures
            handled == key_direction(code).is_some(),
            final(self)@ == old(self)@.after_key(code, is_pressed),
    {
        match code {
            KeyCode::KeyW | KeyCode::ArrowUp => {
                self.is_forward_pressed = is_pressed;
                true
            },
            KeyCode::KeyA | KeyCode::ArrowLeft => {
                self.is_left_pressed = is_pressed;
                true
            },
            KeyCode::KeyS | KeyCode::ArrowDown => {
                self.is_backward_pressed = is_pressed;
                true
            },
            KeyCode::KeyD | KeyCode::ArrowRight => {
                self.is_right_pressed = is_pressed;
                true
            },
            _ => false,
        }
    }

    /// Records a mouse button event. The left button steers the camera:
    /// while it is held the cursor is captured, and its release frees the
    /// cursor again. Other buttons change nothing and ask for nothing.
    pub fn handle_click(&mut self, element_state: ElementState, button: MouseButton) -> (grab:
        Option<CursorGrab>)
        ensures
            final(self)@ == old(self)@.after_click(element_state, button),
            grab == (if button == MouseButton::Left {
                Some(grab_for(element_state))
            } else {
                None
            }),
    {
        match button {
            MouseButton::Left => {
                self.is_mouse_button_pressed = match element_state {
                    ElementState::Pressed => true,
                    ElementState::Released => false,
                };
                if self.is_mouse_button_pressed {
                    Some(CursorGrab::Capture)
                } else {
                    Some(CursorGrab::Release)
                }
            },
            _ => None,
        }
    }

    /// Whether a mouse motion is to be added to the pending rotation: only
    /// while the steering button is held.
    pub fn handle_mouse_motion(&self) -> (accepted: bool)
        ensures
            accepted == self@.mouse_held,
    {
        self.is_mouse_button_pressed
    }

    /// The translations that a camera update applies, in order.
    pub fn update_camera(&self) -> (steps: Vec<Direction>)
        ensures
            steps@ == self@.steps(),
    {
        let mut steps: Vec<Direction> = Vec::new();
        if self.is_forward_pressed {
            steps.push(Direction::Forward);
        }
        if self.is_backward_pressed {
            steps.push(Direction::Backward);
        }
        if self.is_right_pressed {
            steps.push(Direction::Right);
        }
        if self.is_left_pressed {
            steps.push(Direction::Left);
        }
        steps
    }
}

} // verus!

verus! {

/// Releasing a movement key undoes pressing it: a press followed by a release
/// of the same key leaves the controller as a release alone would, and a key
/// that was up before is up again, with everything else as it was.
pub proof fn lemma_release_undoes_press(s: ControllerModel, code: KeyCode)
    ensures
        s.after_key(code, true).after_key(code, false) == s.after_key(code, false),
        (key_direction(code) matches Some(d) && !s.pressed(d)) ==> s.after_key(code, true).after_key(
            code,
            false,
        ) == s,
{
}

/// Keys without a binding, and every mouse button but the left one, leave the
/// controller unchanged.
pub proof fn lemma_unbound_input_is_ignored(
    s: ControllerModel,
    code: KeyCode,
    is_pressed: bool,
    state: ElementState,
    button: MouseButton,
)
    ensures
        key_direction(code) is None ==> s.after_key(code, is_pressed) == s,
        button != MouseButton::Left ==> s.after_click(state, button) == s,
        key_direction(KeyCode::Escape) is None,
        key_direction(KeyCode::Other) is None,
{
}

/// The letter key and the arrow key of a direction are interchangeable.
pub proof fn lemma_arrow_keys_match_letters(s: ControllerModel, is_pressed: bool)
    ensures
        s.after_key(KeyCode::KeyW, is_pressed) == s.after_key(KeyCode::ArrowUp, is_pressed),
        s.after_key(KeyCode::KeyA, is_pressed) == s.after_key(KeyCode::ArrowLeft, is_pressed),
        s.after_key(KeyCode::KeyS, is_pressed) == s.after_key(KeyCode::ArrowDown, is_pressed),
        s.after_key(KeyCode::KeyD, is_pressed) == s.after_key(KeyCode::ArrowRight, is_pressed),
{
}

/// Keys and mouse buttons are independent: a key event never changes the
/// steering button, a click never changes the movement keys, and the two
/// kinds of event commute.
pub proof fn lemma_keys_and_clicks_commute(
    s: ControllerModel,
    code: KeyCode,
    is_pressed: bool,
    state: ElementState,
    button: MouseButton,
)
    ensures
        s.after_key(code, is_pressed).mouse_held == s.mouse_held,
        forall|d: Direction| #[trigger] s.after_click(state, button).pressed(d) == s.pressed(d),
        s.after_key(code, is_pressed).after_click(state, button) == s.after_click(
            state,
            button,
        ).after_key(code, is_pressed),
{
}

/// Key events for two different directions commute; for the same direction
/// the later one wins.
pub proof fn lemma_key_events_commute(
    s: ControllerModel,
    c1: KeyCode,
    p1: bool,
    c2: KeyCode,
    p2: bool,
)
    ensures
        key_direction(c1) != key_direction(c2) ==> s.after_key(c1, p1).after_key(c2, p2)
            == s.after_key(c2, p2).after_key(c1, p1),
        key_direction(c1) == key_direction(c2) ==> s.after_key(c1, p1).after_key(c2, p2)
            == s.after_key(c2, p2),
{
}

/// A camera update moves along exactly the held directions, each once.
pub proof fn lemma_steps_are_held_directions(s: ControllerModel)
    ensures
        forall|d: Direction| #[trigger] s.steps().contains(d) <==> s.pressed(d),
        s.steps().no_duplicates(),
        s.steps().len() <= 4,
{
    let f = if s.forward { seq![Direction::Forward] } else { Seq::<Direction>::empty() };
    let b = if s.backward { seq![Direction::Backward] } else { Seq::<Direction>::empty() };
    let r = if s.right { seq![Direction::Right] } else { Seq::<Direction>::empty() };
    let l = if s.left { seq![Direction::Left] } else { Seq::<Direction>::empty() };
    assert(s.steps() == f + b + r + l);
    assert forall|d: Direction| #[trigger] s.steps().contains(d) <==> s.pressed(d) by {
        if s.pressed(d) {
            let i: int = match d {
                Direction::Forward => 0,
                Direction::Backward => f.len() as int,
                Direction::Right => (f.len() + b.len()) as int,
                Direction::Left => (f.len() + b.len() + r.len()) as int,
            };
            assert(s.steps()[i] == d);
        }
    }
}

} // verus!
