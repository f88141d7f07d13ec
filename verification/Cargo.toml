[package]
name = "ninetyfive"
version = "0.1.0"
edition = "2021"
publish = false

[dependencies]
anyhow = "1"
async-tungstenite = { version = "0.29", features = ["tokio-runtime", "tokio-rustls-manual-roots"] }
futures = "0.3"
log = "0.4"
postage = { version = "0.5", features = ["futures-traits"] }
rand = "0.8"
serde = { version = "1", features = ["derive"] }
serde_json = { version = "1", features = ["preserve_order"] }
tokio = { version = "1", features = ["net", "sync", "time", "rt", "macros"] }
tokio-tungstenite = { version = "0.26", features = ["__rustls-tls"] }
url = "2"
