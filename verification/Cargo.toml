[package]
name = "voicepaste"
version = "0.1.0"
edition = "2021"
publish = false

[dependencies]
serde = { version = "1", features = ["derive"] }
serde_json = "1"
chrono = "0.4"
hound = "3"
directories = "5"
parking_lot = "0.12"
log = "0.4"
rand = "0.8"
anyhow = "1"
env_logger = "0.11"
reqwest = { version = "0.12", default-features = false, features = ["blocking", "multipart", "rustls-tls"] }
