[package]
name = "lurhook"
version = "0.1.0"
edition = "2021"
publish = false

[dependencies]
bracket-lib = "=0.8.7"
serde = { version = "=1.0.229", features = ["derive"] }
thiserror = "=1.0.69"
wasm-bindgen = "=0.2.129"
