[package]
name = "clipboard_monitor"
version = "0.1.0"
edition = "2021"
publish = false

[dependencies]
clipboard-rs = "*"
env_logger = "*"
log = "*"
notify-rust = "*"
reqwest = { version = "*", default-features = false, features = ["blocking", "multipart"] }
serde = { version = "*", features = ["derive"] }
serde_json = "*"
