[package]
name = "dice_roller"
version = "0.1.0"
edition = "2021"
publish = false

[dependencies]
js-sys = "0.3"
seed = "0.9"
serde = { version = "1", features = ["derive"] }
wasm-bindgen = "0.2"
wee_alloc = "0.4"
