[package]
name = "libra"
version = "0.1.0"
edition = "2021"
publish = false

[dependencies]
rand = "0.8"
sha256 = { version = "1", default-features = false }
base64 = "0.22"
chrono = { version = "0.4", default-features = false, features = ["clock", "std"] }
serde = { version = "1", features = ["derive"] }
serde_json = "1"
rspotify = { version = "0.13", default-features = false, features = ["client-reqwest", "reqwest-rustls-tls"] }
reqwest = { version = "0.11", default-features = false, features = ["json", "rustls-tls"] }
tokio = { version = "1", features = ["macros", "rt-multi-thread"] }
futures = "0.3"
crossterm = { version = "0.27", features = ["event-stream"] }
ratatui = "0.26"
webbrowser = "0.8"
log = "0.4"
env_logger = "0.10"
