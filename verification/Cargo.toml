[package]
name = "image_browser"
version = "0.1.0"
edition = "2021"
publish = false

[dependencies]
fs_extra = "1"
sdl2 = { version = "0.35", features = ["image"] }
