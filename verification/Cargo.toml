[package]
name = "rust_ws"
version = "0.1.0"
edition = "2021"
publish = false

[dependencies]
anyhow = "1.0"
chrono = "0.4"
frunk = "0.4"
futures = "0.3"
tokio = { version = "1.45", features = ["full"] }
tokio-stream = { version = "0.1", features = ["sync", "time"] }
tokio-tungstenite = "0.26"
