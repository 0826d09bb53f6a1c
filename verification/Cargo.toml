[package]
name = "screeps_bot"
version = "0.1.0"
edition = "2021"
publish = false

[dependencies]
screeps-game-api = "*"
log = "*"
uuid = "*"
rand = "*"
rand_xorshift = "*"
js-sys = "*"
wasm-bindgen = "*"
dyn-clone = "*"
simplelog = "*"
