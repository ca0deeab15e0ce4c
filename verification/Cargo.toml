[package]
name = "opaque_client"
version = "0.1.0"
edition = "2021"
publish = false

[dependencies]
opaque-ke = { version = "=3.0.0", features = ["argon2"] }
argon2 = "=0.5.3"
blake2 = "=0.10.6"
chacha20poly1305 = "=0.10.1"
rand = "=0.8.8"
wasm-bindgen = "=0.2.129"
