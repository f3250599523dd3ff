[package]
name = "ssh_forwarder"
version = "0.1.0"
edition = "2021"
publish = false

[dependencies]
anyhow = "*"
axum = "*"
config = "*"
env_logger = "*"
log = "*"
serde = { version = "*", features = ["derive"] }
serde_json = "*"
ssh2 = "*"
tokio = { version = "*", features = ["full"] }
