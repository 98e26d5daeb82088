[package]
name = "rtsp_relay"
version = "0.1.0"
edition = "2021"
publish = false

[dependencies]
actix-files = "0.6"
actix-web = "4"
actix-ws = "*"
anyhow = "1"
clap = { version = "4", features = ["derive"] }
env_logger = "*"
futures = "0.3"
log = "0.4"
retina = "0.4"
serde_json = "1"
tokio = { version = "1", features = ["macros", "rt-multi-thread", "signal", "sync"] }
url = "2"
