[package]
name = "garntboy"
version = "0.1.0"
edition = "2021"
publish = false

[dependencies]
byteorder = "=1.5.0"
rust-libretro = "*"
rust-libretro-sys = "*"
