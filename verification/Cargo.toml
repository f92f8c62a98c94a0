[package]
name = "secure_websocket"
version = "0.1.0"
edition = "2021"
publish = false

[dependencies]
snow = "0.9"
rand = "0.8"
data-encoding = "2"
hex = "0.4"
serde = { version = "1", features = ["derive"] }
serde_json = "1"
toml = "0.8"
tokio = { version = "1", features = ["full"] }
tokio-tungstenite = "0.20"
futures-util = "0.3"
reqwest = { version = "0.11", default-features = false, features = ["json", "rustls-tls"] }
