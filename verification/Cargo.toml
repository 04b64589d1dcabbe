[package]
name = "atris"
version = "0.1.0"
edition = "2021"
publish = false

[dependencies]
anyhow = "1"
argon2 = "=0.5.3"
async-trait = "0.1"
aws-config = "=0.101.0"
aws-sdk-dynamodb = "=0.38.0"
base64 = "=0.21.7"
bincode = "=1.3.3"
chacha20poly1305 = "=0.10.1"
lambda_http = "*"
clap = { version = "4", features = ["cargo"] }
password-hash = { version = "=0.5.0", features = ["getrandom"] }
rand = "=0.8.8"
reqwest = { version = "0.11", default-features = false, features = ["json"] }
serde = { version = "=1.0.229", features = ["derive"] }
serde_bytes = "=0.11.19"
serde_json = "=1.0.154"
tokio = { version = "=1.54.1", features = ["sync", "rt", "macros", "io-util", "io-std"] }
webrtc = "=0.6.0"
