[package]
name = "polychat_ipc"
version = "0.1.0"
edition = "2021"
publish = false

[dependencies]
anyhow = "1"
dirs = "5"
futures = "0.3"
interprocess = { version = "=1.2.1", features = ["tokio_support"] }
log = "0.4"
rand = "=0.8.8"
scopeguard = "1"
serde = { version = "1", features = ["derive"] }
serde_json = { version = "=1.0.154", features = ["preserve_order"] }
thiserror = "1"
tokio = { version = "1", features = ["full"] }
walkdir = "2"
