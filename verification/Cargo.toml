[package]
name = "pushrod"
version = "0.1.0"
edition = "2021"
publish = false

[dependencies]
sdl2 = { version = "0.36", features = ["ttf", "image", "unsafe_textures"] }
