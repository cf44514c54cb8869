[package]
name = "eigc"
version = "0.1.0"
edition = "2021"
publish = false

[dependencies]
bevy = { version = "=0.18.1", default-features = false, features = ["std", "bevy_state", "bevy_asset", "bevy_pbr", "bevy_window", "bevy_log", "keyboard", "mouse", "multi_threaded", "async_executor"] }
ron = "=0.12.3"
serde = { version = "=1.0.229", features = ["derive"] }
thiserror = "=2.0.21"
noise = "=0.9.0"
