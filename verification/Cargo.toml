[package]
name = "gradium"
version = "0.1.0"
edition = "2021"
publish = false

[dependencies]
anyhow = "=1.0.104"
base64 = "=0.22.1"
futures-util = { version = "=0.3.34", features = ["sink"] }
reqwest = { version = "=0.12.28", default-features = false, features = ["json"] }
serde = { version = "=1.0.229", features = ["derive"] }
serde_json = "=1.0.154"
tokio = { version = "=1.54.1", features = ["net"] }
tokio-tungstenite = "=0.30.0"
url = "=2.5.8"
