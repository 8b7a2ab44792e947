[package]
name = "spotatui"
version = "0.1.0"
edition = "2021"
publish = false

[dependencies]
anyhow = "1"
serde = { version = "1", features = ["derive"] }
serde_yaml = "0.9"
tokio = { version = "1", features = ["rt-multi-thread", "macros", "sync"] }
tempfile = "3"
rspotify = { version = "*", default-features = false, features = ["client-reqwest", "reqwest-rustls-tls"] }
icy-metadata = "*"
stream-download = "*"
ratatui = "*"
