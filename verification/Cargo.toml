[package]
name = "brp_fixture"
version = "0.1.0"
edition = "2021"
publish = false

[dependencies]
bevy = { version = "=0.16.1", default-features = false, features = ["std"] }
serde = { version = "1", features = ["derive"] }
