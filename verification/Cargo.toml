[package]
name = "lnd_client"
version = "0.1.0"
edition = "2021"
publish = false

[dependencies]
anyhow = "1"
base64 = "0.22"
futures-util = "0.3"
httparse = "1"
lightning-invoice = "*"
native-tls = "0.2"
reqwest = { version = "0.12", features = ["json", "native-tls"] }
serde = { version = "1", features = ["derive"] }
serde_json = { version = "1", features = ["preserve_order"] }
tokio = { version = "1", features = ["net", "sync", "rt", "macros"] }
tokio-tungstenite = { version = "0.26", features = ["native-tls"] }
tracing = "0.1"
