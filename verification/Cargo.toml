[package]
name = "solidflare"
version = "0.1.0"
edition = "2021"
publish = false

[dependencies]
serde = { version = "*", features = ["derive"] }
toml = "*"
worker = "*"
js-sys = "*"
wasm-bindgen = "*"
