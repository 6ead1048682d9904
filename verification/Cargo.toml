[package]
name = "streamchat"
version = "0.1.0"
edition = "2021"
publish = false

[dependencies]
tokio-util = "*"
urlencoding = "*"
tokio = { version = "*", features = ["full"] }
reqwest = { version = "*", default-features = false, features = ["json", "rustls-tls"] }
serde = { version = "*", features = ["derive"] }
serde_json = "*"
serde_millis = "*"
toml = "*"
uuid = { version = "*", features = ["v4"] }
open = "*"
rouille = "*"
tokio-tungstenite = { version = "*", features = ["rustls-tls-webpki-roots"] }
futures-util = "*"
async-trait = "*"
