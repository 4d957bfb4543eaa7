[package]
name = "spawner"
version = "0.1.0"
edition = "2021"
publish = false

[dependencies]
anyhow = "1"
base64 = "0.13"
bollard = "0.13"
futures = "0.3"
http = "0.2"
hyper = { version = "0.14", features = ["full"] }
reqwest = { version = "0.11", default-features = false }
serde = { version = "1", features = ["derive"] }
tokio = { version = "1", features = ["full"] }
tokio-stream = "0.1"
tokio-tungstenite = "0.17"
tracing = "0.1"
url = "2"
