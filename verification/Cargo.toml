[package]
name = "renderkit"
version = "0.1.0"
edition = "2021"
publish = false

[dependencies]
cgmath = "*"
gl = "*"
image = "*"
sdl2 = "*"
