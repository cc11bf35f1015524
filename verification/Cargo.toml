[package]
name = "nbody"
version = "0.1.0"
edition = "2021"
publish = false

[dependencies]
anyhow = "=1.0.104"
bytemuck = { version = "=1.25.2", features = ["derive"] }
egui = "=0.37.0"
egui-wgpu = "=0.37.0"
egui-winit = { version = "=0.37.0", default-features = false, features = ["wayland", "x11"] }
glam = "=0.34.2"
log = "=0.4.35"
pollster = "=1.0.1"
wgpu = { version = "=30.0.1", features = ["noop"] }
winit = "=0.30.13"
js-sys = "0.3"
wasm-bindgen = "0.2"
wasm-bindgen-futures = "0.4"
web-sys = { version = "0.3", features = ["Document", "Element", "HtmlCanvasElement", "WebGl2RenderingContext", "Window"] }
web-time = "1"
