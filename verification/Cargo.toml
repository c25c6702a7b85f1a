[package]
name = "goose_webtest"
version = "0.1.0"
edition = "2021"
publish = false

[dependencies]
petgraph = "0.6"
chrono = "0.4"
toml = "0.8"
serde = { version = "1", features = ["derive"] }
serde_json = "1"
serde_yaml = "0.9"
anyhow = "1"
base64 = "0.22"
tokio = { version = "1", features = ["full"] }
tokio-util = "0.7"
tracing = "0.1"
uuid = { version = "1", features = ["v4"] }
rmcp = "*"
