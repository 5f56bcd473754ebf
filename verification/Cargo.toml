[package]
name = "vehicle_controller"
version = "0.1.0"
edition = "2021"
publish = false

[dependencies]
rapier3d = "0.23"
wasm-bindgen = "0.2"
js-sys = "0.3"
