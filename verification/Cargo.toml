[package]
name = "rnes"
version = "0.1.0"
edition = "2021"
publish = false

[dependencies]
sdl2 = "0.29"
time = "0.1"
