[package]
name = "velocity-core"
version = "0.1.0"
edition = "2021"
publish = false

[dependencies]
libc = "0.2"
nix = "0.26"
sdl2 = { version = "0.35", features = ["ttf"] }
whoami = "1"
