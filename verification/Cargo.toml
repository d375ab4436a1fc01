[package]
name = "rustyspoty"
version = "0.1.0"
edition = "2021"

[dependencies]
base64 = "0.21"
rand = "0.8"
regex = "1"
reqwest = { version = "0.11", features = ["json"] }
serde = { version = "1", features = ["derive"] }
serde_json = "1"
sha2 = "0.10"
tokio = { version = "1", features = ["sync"] }
url = "2"
