[package]
name = "orrery"
version = "0.1.0"
edition = "2021"
publish = false

[dependencies]
bevy = { version = "0.16", default-features = false, features = ["std", "async_executor", "multi_threaded", "bevy_asset", "bevy_color", "bevy_core_pipeline", "bevy_pbr", "bevy_render", "bevy_window", "bevy_winit", "tonemapping_luts", "x11"] }
