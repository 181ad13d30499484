[package]
name = "local_companion"
version = "0.1.0"
edition = "2021"
publish = false

[dependencies]
serde = { version = "=1.0.229", features = ["derive"] }
serde_json = "=1.0.154"
base64 = "=0.22.1"
tokio = { version = "=1.54.1", features = ["full"] }
axum = "=0.7.9"
reqwest = { version = "=0.12.28", default-features = false, features = ["json"] }
futures = "=0.3.34"
tokio-tungstenite = "=0.21.0"
tower-http = { version = "=0.5.2", features = ["cors"] }
once_cell = "=1.21.4"
ndarray = "0.16"
ort = { version = "=2.0.0-rc.10", default-features = false, features = ["ndarray", "load-dynamic"] }
tokenizers = { version = "0.21", default-features = false, features = ["onig"] }
