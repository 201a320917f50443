[package]
name = "su"
version = "0.1.0"
edition = "2021"
publish = false

[dependencies]
sha2 = "0.10"
base64-url = "2"
dashmap = "5"
serde = { version = "1", features = ["derive"] }
serde_json = "1"
tokio = { version = "1", features = ["fs", "io-util", "sync"] }
reqwest = { version = "0.11", default-features = false }
arweave-rs = "*"
dotenv = "0.15"
