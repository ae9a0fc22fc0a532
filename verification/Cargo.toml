[package]
name = "space_bot"
version = "0.1.0"
edition = "2021"
publish = false

[dependencies]
serenity = "=0.10.10"
rand = "=0.8.8"
chrono = "=0.4.45"
tokio = { version = "=1.54.1", features = ["full"] }
mysql = "=23.0.1"
dotenv = "=0.15.0"
lazy_static = "=1.5.1"
log = "=0.4.35"
songbird = "=0.2.2"
reqwest = { version = "=0.11.27", default-features = false, features = ["json", "rustls-tls"] }
serde_json = "=1.0.154"
