[package]
name = "wiresmith"
version = "0.1.0"
edition = "2021"
publish = false

[dependencies]
anyhow = "1"
base64 = "0.22"
clap = { version = "4", features = ["derive"] }
file-owner = "*"
futures = "0.3"
humantime = "2"
ipnet = { version = "2", features = ["serde"] }
pnet = "*"
reqwest = { version = "0.12", default-features = false, features = ["json"] }
rust-ini = "*"
serde = { version = "1", features = ["derive"] }
serde_json = "1"
tokio = { version = "1", features = ["full"] }
tokio-util = "0.7"
tracing = "0.1"
tracing-subscriber = { version = "0.3", features = ["env-filter"] }
uuid = { version = "1", features = ["serde"] }
wireguard-keys = { version = "0.1", features = ["serde"] }
