[package]
name = "client_cache"
version = "0.1.0"
edition = "2021"
publish = false

[dependencies]
anyhow = "1"
chrono = { version = "0.4", default-features = false, features = ["clock"] }
once_cell = "1"
reqwest = { version = "0.12", default-features = false }
tokio = { version = "1", features = ["sync"] }
