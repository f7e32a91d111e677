[package]
name = "bet_commitment"
version = "0.1.0"
edition = "2021"

[dependencies]
bulletproofs = "5"
curve25519-dalek = { version = "4", features = ["rand_core"] }
merlin = "3"
rand = "0.8"
serde = { version = "1", features = ["derive"] }
serde-wasm-bindgen = "0.6"
wasm-bindgen = "0.2"
