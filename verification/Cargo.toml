[package]
name = "orbit_scene"
version = "0.1.0"
edition = "2021"
publish = false

[dependencies]
rand = "=0.10.3"
chacha20 = { version = "=0.10.2", features = ["rng"] }
gl = "=0.14.0"
glfw = "=0.63.0"
tobj = "=4.0.5"
image = { version = "=0.25.10", default-features = false, features = ["png", "jpeg"] }
