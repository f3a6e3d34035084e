[package]
name = "q_screens"
version = "0.1.0"
edition = "2021"
publish = false

[dependencies]
bevy = { version = "=0.17.3", default-features = false, features = ["std", "bevy_log", "bevy_window"] }
thiserror = "=2.0.21"
tiny_bail = "=0.7.0"
