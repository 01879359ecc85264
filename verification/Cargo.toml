[package]
name = "image_processor"
version = "0.1.0"
edition = "2021"
publish = false

[dependencies]
image = { version = "0.25", default-features = false, features = ["png"] }
js-sys = "0.3"
wasm-bindgen = "0.2"
wee_alloc = "0.4"
