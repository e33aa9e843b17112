[package]
name = "render_state"
version = "0.1.0"
edition = "2021"
publish = false

[dependencies]
anyhow = "1"
bytemuck = { version = "1", features = ["derive"] }
cgmath = "0.18"
console_error_panic_hook = "0.1"
env_logger = "0.8"
futures = "0.3"
image = { version = "0.23", default-features = false, features = ["png", "jpeg"] }
js-sys = "0.3"
tobj = "3"
wasm-bindgen = "0.2"
wasm-bindgen-futures = "0.4"
web-sys = { version = "0.3", features = ["Window", "Response", "Document", "Element", "HtmlElement", "Node"] }
wgpu = "0.9"
winit = "0.25"
