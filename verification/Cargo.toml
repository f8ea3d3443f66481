[package]
name = "raflow"
version = "0.1.0"
edition = "2021"
publish = false

[dependencies]
arc-swap = "=1.9.3"
base64 = "=0.22.1"
cpal = "0.15"
dirs = "=5.0.1"
env_logger = "=0.11.11"
futures-util = "=0.3.34"
http = "=1.5.0"
log = "=0.4.34"
nnnoiseless = { version = "=0.5.2", default-features = false }
serde = { version = "=1.0.229", features = ["derive"] }
serde_json = "=1.0.154"
thiserror = "=1.0.69"
tokio = { version = "=1.54.1", features = ["full"] }
tokio-tungstenite = { version = "=0.26.2", features = ["native-tls"] }
