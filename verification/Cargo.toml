[package]
name = "clock_face"
version = "0.1.0"
edition = "2021"
publish = false

[dependencies]
chrono = "0.4"
cairo-rs = { version = "*", default-features = false }
sdl2 = "*"
