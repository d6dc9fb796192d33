[package]
name = "slime_sim"
version = "0.1.0"
edition = "2021"
publish = false

[dependencies]
gl = "0.14"
image = { version = "0.24", default-features = false }
rand = "0.8"
sdl2 = "0.37"
