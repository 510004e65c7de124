[package]
name = "fyrox_ui_sdl3"
version = "0.1.0"
edition = "2021"
publish = false

[dependencies]
fyrox-ui = "=1.0.1"
sdl3 = "=0.20.0"
sdl3-sys = { version = "=0.7.2", features = ["no-link"] }
