[package]
name = "spline_test"
version = "0.1.0"
edition = "2021"
publish = false

[dependencies]
rc-zip-sync = "=4.4.2"
glam = { version = "=0.34.2", features = ["bytemuck"] }
bytemuck = { version = "=1.25.2", features = ["derive"] }
half = { version = "=2.7.1", features = ["bytemuck"] }
log = "=0.4.35"
leptos = { version = "*", default-features = false }
console_error_panic_hook = "*"
console_log = "*"
