[package]
name = "hiven"
version = "0.1.0"
edition = "2021"
publish = false

[dependencies]
async-tungstenite = { version = "*", features = ["tokio-runtime", "tokio-native-tls"] }
futures = "0.3"
reqwest = "*"
serde = { version = "1", features = ["derive"] }
serde_json = "1"
tokio = { version = "1", features = ["macros", "rt", "sync", "time"] }
