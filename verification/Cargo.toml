[package]
name = "bounty_board"
version = "0.1.0"
edition = "2021"
publish = false

[dependencies]
js-sys = "*"
serde = { version = "*", features = ["derive"] }
serde-wasm-bindgen = "*"
wasm-bindgen = "*"
web-sys = { version = "*", features = ["console"] }
