[package]
name = "transport"
version = "0.1.0"
edition = "2021"
publish = false

[dependencies]
anyhow = "1"
axum = { version = "0.8", features = ["ws"] }
axum-server = { version = "0.7", features = ["tls-rustls"] }
base64 = "0.22"
bytes = "1"
clap = { version = "4", features = ["derive"] }
colored = "3"
dotenvy = "0.15"
futures = "0.3"
futures-util = "0.3"
rand = "0.9"
resolver_api = "*"
rustls = "0.23"
serde = { version = "1", features = ["derive"] }
serde_json = "1"
serror = { version = "*", features = ["axum"] }
sha1 = "0.10"
sha2 = "0.10"
snow = "0.10"
strum = { version = "0.27", features = ["derive"] }
tokio = { version = "1", features = ["full"] }
tokio-stream = { version = "0.1", features = ["sync"] }
tokio-tungstenite = { version = "*", features = ["rustls-tls-native-roots"] }
tokio-util = { version = "0.7", features = ["io", "codec"] }
tracing = "0.1"
url = "2"
urlencoding = "2"
uuid = { version = "1", features = ["v4", "serde"] }
