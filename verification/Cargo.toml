[package]
name = "glium_sdl2_backend"
version = "0.1.0"
edition = "2021"
publish = false

[dependencies]
glium = "*"
sdl2 = "*"
sdl2-sys = "*"
