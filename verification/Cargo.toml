[package]
name = "music-player"
version = "0.1.0"
edition = "2021"
publish = false

[dependencies]
anyhow = "1"
mpris = "2"
reqwest = "0.12"
serde = { version = "1", features = ["derive"] }
