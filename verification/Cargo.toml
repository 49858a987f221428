[package]
name = "grid_automata"
version = "0.1.0"
edition = "2021"
publish = false

[dependencies]
bytemuck = "1"
rand = "0.9"
bevy = { version = "0.16", default-features = false, features = ["std", "async_executor", "bevy_asset", "bevy_core_pipeline", "bevy_log", "bevy_render", "bevy_sprite", "bevy_window", "bevy_winit", "x11"] }
