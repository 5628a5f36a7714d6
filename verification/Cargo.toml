[package]
name = "aliyundrive"
version = "0.1.0"
edition = "2021"
publish = false

[dependencies]
anyhow = "1"
base64 = "0.22"
colored = "2"
futures = "0.3"
indicatif = "0.17"
open = "5"
rand = "0.8"
reqwest = { version = "0.12", features = ["json", "stream"] }
rustyline = "14"
serde = { version = "1", features = ["derive"] }
serde_json = "1"
sha2 = "0.10"
shlex = "1"
tokio = { version = "1", features = ["full"] }
url = "2"
