//! The viewer's response to window events.
use vstd::prelude::*;

use crate::camera_controller::{CameraController, ControllerModel, CursorGrab, Direction};
use crate::input::{ElementState, KeyCode, MouseButton};
use crate::surface::{SurfaceModel, SurfaceState};

verus! {

/// A window event, as far as the viewer reacts to it.
#[derive(Clone, Copy, Debug, PartialEq, Eq, Structural)]
pub enum WindowEvent {
    /// The user asked to close the window.
    CloseRequested,
    /// The window's drawable area changed.
    Resized { width: u32, height: u32 },
    /// The window wants a new frame.
    RedrawRequested,
    /// A key went down or up.
    KeyboardInput { code: KeyCode, is_pressed: bool },
    /// A mouse button went down or up.
    MouseInput { state: ElementState, button: MouseButton },
    /// Anything else.
    Other,
}

/// What the event loop has to carry out after an event.
#[derive(Clone, Copy, Debug, PartialEq, Eq, Structural)]
pub enum EventResponse {
    /// Nothing.
    Nothing,
    /// Leave the event loop.
    Exit,
    /// Configure the surface with this size and recreate the size-dependent
    /// targets.
    Reconfigure { width: u32, height: u32 },
    /// Update the camera (see [`State::update`]), and draw a frame if
    /// `render`. The next frame is asked for in any case.
    Redraw { render: bool },
    /// Capture or free the mouse cursor.
    Cursor(CursorGrab),
}

/// The mathematical state of a [`State`].
pub struct StateModel {
    pub controller: ControllerModel,
    pub surface: SurfaceModel,
}

impl StateModel {
    /// Whether a key event ends the program: the escape key going down.
    pub open spec fn exits_on(code: KeyCode, is_pressed: bool) -> bool {
        code == KeyCode::Escape && is_pressed
    }

    /// The state after a key event: escape going down ends the program and
    /// changes nothing else, every other key event goes to the camera.
    pub open spec fn after_key(self, code: KeyCode, is_pressed: bool) -> StateModel {
        if Self::exits_on(code, is_pressed) {
            self
        } else {
            StateModel { controller: self.controller.after_key(code, is_pressed), ..self }
        }
    }

    /// The state after `event`, unless the user interface took it.
    pub open spec fn after_event(self, event: WindowEvent, consumed_by_ui: bool) -> StateModel {
        if consumed_by_ui {
            self
        } else {
            match event {
                WindowEvent::Resized { width, height } => StateModel {
                    surface: self.surface.after_resize(width, height),
                    ..self
                },
                WindowEvent::KeyboardInput { code, is_pressed } => self.after_key(code, is_pressed),
                WindowEvent::MouseInput { state, button } => StateModel {
                    controller: self.controller.after_click(state, button),
                    ..self
                },
                _ => self,
            }
        }
    }

    /// The response to `event` from this state, before the event is applied.
    pub open spec fn response(self, event: WindowEvent, consumed_by_ui: bool) -> EventResponse {
        if consumed_by_ui {
            EventResponse::Nothing
        } else {
            match event {
                WindowEvent::CloseRequested => EventResponse::Exit,
                WindowEvent::Resized { width, height } => if width > 0 && height > 0 {
                    EventResponse::Reconfigure {
                        width: self.surface.after_resize(width, height).width,
                        height: self.surface.after_resize(width, height).height,
                    }
                } else {
                    EventResponse::Nothing
                },
                WindowEvent::RedrawRequested => EventResponse::Redraw {
                    render: self.surface.configured,
                },
                WindowEvent::KeyboardInput { code, is_pressed } => if Self::exits_on(
                    code,
                    is_pressed,
                ) {
                    EventResponse::Exit
                } else {
                    EventResponse::Nothing
                },
                WindowEvent::MouseInput { state, button } => if button == MouseButton::Left {
                    EventResponse::Cursor(crate::camera_controller::grab_for(state))
                } else {
                    EventResponse::Nothing
                },
                WindowEvent::Other => EventResponse::Nothing,
            }
        }
    }
}

/// The part of the viewer's state that its decisions read: the camera
/// controller and the presentation surface.
pub struct State {
    camera_controller: CameraController,
    surface: SurfaceState,
}

impl View for State {
    type V = StateModel;

    closed spec fn view(&self) -> StateModel {
        StateModel { controller: self.camera_controller@, surface: self.surface@ }
    }
}

impl State {
    /// The state of a fresh window of `width` x `height` on a device that
    /// presents at most `max_view_width` x `max_view_height`. Drawing may
    /// start at once if the surface was `configured` on creation; otherwise
    /// only after the first resize.
    pub fn new(
        width: u32,
        height: u32,
        max_view_width: u32,
        max_view_height: u32,
        configured: bool,
    ) -> (s: Self)
        ensures
            s@.controller == CameraController::new_model(),
            s@.surface == (SurfaceModel {
                width: if width == 0 { 1 } else { width },
                height: if height == 0 { 1 } else { height },
                max_view_width,
                max_view_height,
                configured,
            }),
    {
        State {
            camera_controller: CameraController::new(),
            surface: SurfaceState::new(width, height, max_view_width, max_view_height, configured),
        }
    }

    /// The camera controller.
    pub fn camera_controller(&self) -> (c: &CameraController)
        ensures
            c@ == self@.controller,
    {
        &self.camera_controller
    }

    /// The presentation surface.
    pub fn surface(&self) -> (s: &SurfaceState)
        ensures
            s@ == self@.surface,
    {
        &self.surface
    }

    /// Adopts a new window size; returns whether the surface has to be
    /// configured again.
    pub fn resize(&mut self, width: u32, height: u32) -> (reconfigure: bool)
        ensures
            reconfigure == (width > 0 && height > 0),
            final(self)@ == (StateModel {
                surface: old(self)@.surface.after_resize(width, height),
                ..old(self)@
            }),
    {
        self.surface.resize(width, height)
    }

    /// The translations of one camera update, in order.
    pub fn update(&self) -> (steps: Vec<Direction>)
        ensures
            steps@ == self@.controller.steps(),
    {
        self.camera_controller.update_camera()
    }

    /// Whether a frame may be drawn now.
    pub fn render(&self) -> (draw: bool)
        ensures
            draw == self@.surface.configured,
    {
        self.surface.can_render()
    }

    /// Handles a key event; returns whether the program is to end, which
    /// escape going down asks for. Every other key event goes to the camera.
    pub fn handle_key(&mut self, code: KeyCode, is_pressed: bool) -> (exit: bool)
        ensures
            exit == StateModel::exits_on(code, is_pressed),
            final(self)@ == old(self)@.after_key(code, is_pressed),
    {
        match code {
            KeyCode::Escape => {
                if is_pressed {
                    return true;
                }
            },
            _ => {},
        }
        let _ = self.camera_controller.handle_key(code, is_pressed);
        false
    }

    /// Handles a mouse button event; returns the cursor request, if any.
    pub fn handle_click(&mut self, element_state: ElementState, button: MouseButton) -> (grab:
        Option<CursorGrab>)
        ensures
            final(self)@ == (StateModel {
                controller: old(self)@.controller.after_click(element_state, button),
                ..old(self)@
            }),
            grab == (if button == MouseButton::Left {
                Some(crate::camera_controller::grab_for(element_state))
            } else {
                None
            }),
    {
        self.camera_controller.handle_click(element_state, button)
    }

    /// Whether a mouse motion is to be added to the pending rotation.
    pub fn handle_mouse_motion(&self) -> (accepted: bool)
        ensures
            accepted == self@.controller.mouse_held,
    {
        self.camera_controller.handle_mouse_motion()
    }

    /// Handles a window event that the user interface did not take
    /// (`consumed_by_ui` false) or did take; returns what the event loop has
    /// to carry out.
    pub fn window_event(&mut self, event: WindowEvent, consumed_by_ui: bool) -> (response:
        EventResponse)
        ensures
            response == old(self)@.response(event, consumed_by_ui),
            final(self)@ == old(self)@.after_event(event, consumed_by_ui),
    {
        if consumed_by_ui {
            return EventResponse::Nothing;
        }
        match event {
            WindowEvent::CloseRequested => EventResponse::Exit,
            WindowEvent::Resized { width, height } => {
                if self.resize(width, height) {
                    EventResponse::Reconfigure {
                        width: self.surface.width(),
                        height: self.surface.height(),
                    }
                } else {
                    EventResponse::Nothing
                }
            },
            WindowEvent::RedrawRequested => EventResponse::Redraw { render: self.render() },
            WindowEvent::KeyboardInput { code, is_pressed } => {
                if self.handle_key(code, is_pressed) {
                    EventResponse::Exit
                } else {
                    EventResponse::Nothing
                }
            },
            WindowEvent::MouseInput { state, button } => {
                match self.handle_click(state, button) {
                    Some(grab) => EventResponse::Cursor(grab),
                    None => EventResponse::Nothing,
                }
            },
            WindowEvent::Other => EventResponse::Nothing,
        }
    }
}

/// Events that the user interface takes change nothing and ask for nothing.
pub proof fn lemma_consumed_events_are_inert(s: StateModel, event: WindowEvent)
    ensures
        s.after_event(event, true) == s,
        s.response(event, true) == EventResponse::Nothing,
{
}

/// Closing the window and pressing escape end the program without touching
/// the state.
pub proof fn lemma_exit_leaves_state(s: StateModel)
    ensures
        s.response(WindowEvent::CloseRequested, false) == EventResponse::Exit,
        s.after_event(WindowEvent::CloseRequested, false) == s,
        s.response(WindowEvent::KeyboardInput { code: KeyCode::Escape, is_pressed: true }, false)
            == EventResponse::Exit,
        s.after_event(WindowEvent::KeyboardInput { code: KeyCode::Escape, is_pressed: true }, false)
            == s,
{
}

/// A frame is drawn exactly when the surface is configured, and once a
/// resize to a positive size has happened, every later frame is drawn.
pub proof fn lemma_redraw_renders_when_configured(s: StateModel, width: u32, height: u32)
    ensures
        s.response(WindowEvent::RedrawRequested, false) == (EventResponse::Redraw {
            render: s.surface.configured,
        }),
        (width > 0 && height > 0) ==> s.after_event(
            WindowEvent::Resized { width, height },
            false,
        ).after_event(WindowEvent::RedrawRequested, false).surface.configured,
{
}

/// A resize reports the size that the surface then has.
pub proof fn lemma_reconfigure_reports_new_size(s: StateModel, width: u32, height: u32)
    requires
        width > 0 && height > 0,
    ensures
        s.response(WindowEvent::Resized { width, height }, false) == (EventResponse::Reconfigure {
            width: s.after_event(WindowEvent::Resized { width, height }, false).surface.width,
            height: s.after_event(WindowEvent::Resized { width, height }, false).surface.height,
        }),
{
}

/// Only escape going down ends the program. Every other key event, and
/// escape coming up, is answered with nothing and goes to the camera
/// controller, which a key without a binding leaves as it was.
pub proof fn lemma_only_escape_press_exits(s: StateModel, code: KeyCode, is_pressed: bool)
    ensures
        StateModel::exits_on(code, is_pressed) <==> (code == KeyCode::Escape && is_pressed),
        (s.response(WindowEvent::KeyboardInput { code, is_pressed }, false) == EventResponse::Exit)
            <==> (code == KeyCode::Escape && is_pressed),
        !(code == KeyCode::Escape && is_pressed) ==> s.response(
            WindowEvent::KeyboardInput { code, is_pressed },
            false,
        ) == EventResponse::Nothing,
        !(code == KeyCode::Escape && is_pressed) ==> s.after_event(
            WindowEvent::KeyboardInput { code, is_pressed },
            false,
        ) == (StateModel { controller: s.controller.after_key(code, is_pressed), ..s }),
        code == KeyCode::Other ==> s.after_event(
            WindowEvent::KeyboardInput { code, is_pressed },
            false,
        ) == s,
        code == KeyCode::Escape ==> s.after_event(
            WindowEvent::KeyboardInput { code, is_pressed },
            false,
        ) == s,
{
}

/// The left button steers: pressing it captures the cursor and turns mouse
/// look on, releasing it frees the cursor and turns mouse look off, from any
/// state. Other buttons are answered with nothing and change nothing.
pub proof fn lemma_left_button_grabs_and_frees(
    s: StateModel,
    state: ElementState,
    button: MouseButton,
)
    ensures
        s.response(
            WindowEvent::MouseInput { state: ElementState::Pressed, button: MouseButton::Left },
            false,
        ) == EventResponse::Cursor(CursorGrab::Capture),
        s.response(
            WindowEvent::MouseInput { state: ElementState::Released, button: MouseButton::Left },
            false,
        ) == EventResponse::Cursor(CursorGrab::Release),
        s.after_event(
            WindowEvent::MouseInput { state: ElementState::Pressed, button: MouseButton::Left },
            false,
        ).controller.mouse_held,
        !s.after_event(
            WindowEvent::MouseInput { state: ElementState::Released, button: MouseButton::Left },
            false,
        ).controller.mouse_held,
        ({
            let pressed = s.after_event(
                WindowEvent::MouseInput { state: ElementState::Pressed, button: MouseButton::Left },
                false,
            );
            &&& pressed.response(
                WindowEvent::MouseInput {
                    state: ElementState::Released,
                    button: MouseButton::Left,
                },
                false,
            ) == EventResponse::Cursor(CursorGrab::Release)
            &&& !pressed.after_event(
                WindowEvent::MouseInput {
                    state: ElementState::Released,
                    button: MouseButton::Left,
                },
                false,
            ).controller.mouse_held
        }),
        button != MouseButton::Left ==> s.response(
            WindowEvent::MouseInput { state, button },
            false,
        ) == EventResponse::Nothing,
        button != MouseButton::Left ==> s.after_event(WindowEvent::MouseInput { state, button }, false)
            == s,
        forall|d: Direction| #[trigger]
            s.after_event(WindowEvent::MouseInput { state, button }, false).controller.pressed(d)
                == s.controller.pressed(d),
{
}

/// A redraw changes nothing: held movement keys stay held, so every frame
/// moves the camera along them again, and the surface stays as it was. The
/// same holds of closing the window and of events the viewer ignores.
pub proof fn lemma_redraw_keeps_state(s: StateModel, code: KeyCode)
    ensures
        s.after_event(WindowEvent::RedrawRequested, false) == s,
        s.after_event(WindowEvent::CloseRequested, false) == s,
        s.after_event(WindowEvent::Other, false) == s,
        ({
            let held = s.after_event(WindowEvent::KeyboardInput { code, is_pressed: true }, false);
            let redrawn = held.after_event(WindowEvent::RedrawRequested, false);
            &&& redrawn.controller == held.controller
            &&& (crate::camera_controller::key_direction(code) matches Some(d) ==> redrawn.controller.pressed(d)
                && redrawn.controller.steps().contains(d))
        }),
{
    let held = s.after_event(WindowEvent::KeyboardInput { code, is_pressed: true }, false);
    crate::camera_controller::lemma_steps_are_held_directions(held.controller);
}

} // verus!
