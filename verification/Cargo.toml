[package]
name = "vibes"
version = "0.1.0"
edition = "2021"
publish = false

[dependencies]
anyhow = "*"
base64 = "*"
chrono = "*"
crossterm = { version = "*", features = ["event-stream"] }
dotenvy = "*"
futures = "*"
open = "*"
rand = "*"
ratatui = "*"
redis = { version = "*", default-features = false, features = ["tokio-comp"] }
rspotify = "*"
serde_json = "*"
sha2 = "*"
tokio = { version = "*", features = ["macros", "rt-multi-thread", "sync", "time", "net", "io-util"] }
