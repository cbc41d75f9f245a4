[package]
name = "crawler"
version = "0.1.0"
edition = "2021"
publish = false

[dependencies]
regex = "=1.13.1"
uuid = { version = "=1.29.0", features = ["v4"] }
url = "=2.5.8"
serde = { version = "1", features = ["derive"] }
serde_json = "1"
serde_yaml = "0.9"
slog = "2"
futures = "0.3"
log = "0.4"
env_logger = "0.11"
clap = "2"
crossbeam = "0.8"
crossbeam-channel = "0.5"
reqwest = { version = "0.12", default-features = false, features = ["blocking"] }
spinners = "4"
vfs = "0.13"
