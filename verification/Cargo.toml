[package]
name = "salty"
version = "0.1.0"
edition = "2021"
publish = false

[dependencies]
alloy-primitives = { version = "*", features = ["rand"] }
clap = { version = "4", features = ["derive"] }
console = "*"
figment = { version = "*", features = ["toml"] }
indicatif = "*"
ocl = "*"
rand = "0.8"
rand_chacha = "0.3"
serde = { version = "1", features = ["derive"] }
serde-wasm-bindgen = "*"
wasm-bindgen = "*"
