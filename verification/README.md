# nbody

An interactive viewer of a small gravitational n-body system (the figure-eight
three-body orbit), rendered and integrated on the GPU with wgpu.

- `src/` is the verified library: the decisions the viewer makes. It holds the
  camera controller's key and button state, the sizing of the presentation
  surface, the response to each outcome of acquiring a frame, the choice of
  multisampling and surface format for a device, the ping-pong schedule of the
  acceleration compute pass, and the response to each window event. Every
  function carries a contract, and the laws that tie the operations together
  are proof functions beside them.
- `tests/` runs the library on concrete values.
- `app/` is the desktop program around it: window and event loop (winit), GPU
  resources and command recording (wgpu), the debug interface (egui), and the
  floating-point parts (camera matrices, time accounting).

The program builds for the desktop and, through the `wasm32` target, for a
page with a `canvas` element; there a WebGL2 canvas reports its own largest
viewport. The program loads its WGSL shaders at start-up from a `shaders/` directory in
the working directory (`step_a_y4.wgsl`, `grid.wgsl`, `body_draw.wgsl`).
