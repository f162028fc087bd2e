[package]
name = "spinning_quad"
version = "0.1.0"
edition = "2021"
publish = false

[dependencies]
bytemuck = "1"
cfg-if = "1"
console_error_panic_hook = "0.1"
console_log = "1"
env_logger = { version = "0.11", default-features = false }
glam = "0.28"
log = "0.4"
wasm-bindgen = "0.2"
web-sys = { version = "0.3", features = ["Document", "Element", "Window"] }
wgpu = { version = "22", default-features = false, features = ["wgsl"] }
