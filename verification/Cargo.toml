[package]
name = "blades"
version = "0.1.0"
edition = "2021"
publish = false

[dependencies]
uuid = { version = "=1.29.1", features = ["v4", "v8", "serde"] }
rand = "=0.9.5"
serde = { version = "=1.0.229", features = ["derive"] }
serde_json = "=1.0.154"
tokio = { version = "=1.54.1", features = ["full"] }
anyhow = "=1.0.104"
thiserror = "=2.0.21"
log = "=0.4.35"
env_logger = "=0.11.11"
clap = { version = "=4.6.7", features = ["derive"] }
actix-web = "=4.18.1"
tokio-postgres = { version = "=0.7.18", features = ["with-uuid-1", "with-serde_json-1"] }
deadpool-postgres = "=0.14.2"
actix-files = "0.6"
actix-ws = "0.3"
futures-util = "0.3"
tokio-stream = "0.1"
