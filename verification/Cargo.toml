[package]
name = "voxbridge"
version = "0.1.0"
edition = "2021"
publish = false

[dependencies]
base64 = "0.22"
serde = { version = "1", features = ["derive"] }
serde_json = "1"
thiserror = "2"
tokio = { version = "1", features = ["sync", "time", "net", "rt", "macros"] }
tokio-util = "0.7"
futures-util = { version = "0.3", features = ["sink"] }
tokio-tungstenite = { version = "0.26", features = ["rustls-tls-webpki-roots"] }
rustls = { version = "0.23", default-features = false, features = ["ring", "std", "tls12", "logging"] }
cpal = "0.15"
