[package]
name = "crypto_engine"
version = "0.1.0"
edition = "2021"
publish = false

[dependencies]
hex = "*"
sha2 = "*"
wasm-bindgen = "*"
serde-wasm-bindgen = "*"
