[package]
name = "cardamom"
version = "0.1.0"
edition = "2021"
publish = false

[dependencies]
anyhow = "1"
chrono = "0.4"
clap = "2"
env_logger = "0.8"
log = "0.4"
quick-xml = { version = "0.22", features = ["serialize"] }
reqwest = { version = "0.11", features = ["blocking"] }
serde = { version = "1", features = ["derive"] }
toml = "0.5"
