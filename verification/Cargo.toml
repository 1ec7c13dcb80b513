[package]
name = "sidecar_bridge"
version = "0.1.0"
edition = "2021"
publish = false

[dependencies]
dirs = "5"
serde_json = "1"
tokio = { version = "1", features = ["sync"] }
