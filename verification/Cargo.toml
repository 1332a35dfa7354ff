[package]
name = "retro_bridge"
version = "0.1.0"
edition = "2021"
publish = false

[dependencies]
rust-libretro-sys = "*"
log = "*"
