[package]
name = "bevy_mod_sdl3"
version = "0.1.0"
edition = "2021"
publish = false

[dependencies]
bevy_app = "=0.19.1"
bevy_derive = "=0.19.1"
bevy_ecs = "=0.19.1"
bevy_input = "=0.19.1"
bevy_log = "=0.19.1"
bevy_math = "=0.19.1"
bevy_window = "=0.19.1"
raw-window-handle = "=0.6.2"
sdl3 = { version = "=0.22.0", features = ["raw-window-handle"] }
