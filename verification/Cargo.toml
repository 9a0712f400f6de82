[package]
name = "spotify_player"
version = "0.1.0"
edition = "2021"
publish = false

[dependencies]
anyhow = "1"
chrono = { version = "0.4", default-features = false }
crossterm = "0.25"
flume = "0.10"
reqwest = { version = "0.11", default-features = false, features = ["rustls-tls"] }
serde_json = "1"
tui = { version = "0.19", default-features = false }
