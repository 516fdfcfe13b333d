[package]
name = "hanami_companion"
version = "0.1.0"
edition = "2021"
publish = false

[dependencies]
uuid = { version = "=1.29.0", features = ["v4"] }
chrono = "=0.4.45"
url = "=2.5.8"
serde = { version = "=1.0.229", features = ["derive"] }
serde_json = "=1.0.154"
keyring = { version = "=3.6.3", features = ["apple-native", "windows-native", "linux-native"] }
tokio = { version = "=1.54.1", features = ["net", "time", "sync", "io-util", "macros", "rt-multi-thread"] }
tokio-tungstenite = "=0.24.0"
futures-util = "=0.3.34"
reqwest = { version = "=0.12.28", default-features = false, features = ["rustls-tls"] }
