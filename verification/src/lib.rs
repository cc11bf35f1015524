//! Decision logic of an interactive n-body viewer: input handling for the
//! free-flying camera, surface sizing, frame acquisition outcomes, device
//! queries and the ping-pong schedule of the gravity compute pass.
pub mod camera_controller;
pub mod compute;
pub mod frame;
pub mod gpu;
pub mod input;
pub mod state;
pub mod surface;
