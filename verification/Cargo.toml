[package]
name = "async-wsocket"
version = "0.1.0"
edition = "2021"
publish = false

[dependencies]
futures-util = { version = "0.3", default-features = false, features = ["std", "sink"] }
thiserror = "1"
tokio = { version = "1", features = ["net", "time", "io-util", "sync", "rt"] }
tokio-tungstenite = { version = "0.26", features = ["rustls-tls-webpki-roots"] }
url = "2.5"
