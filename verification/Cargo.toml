[package]
name = "ghostwriter_lib"
version = "0.1.0"
edition = "2021"
publish = false

[dependencies]
arboard = "3"
base64 = "0.22"
dirs = "5"
enigo = "0.2"
env_logger = "0.11"
hostname = "0.4"
log = "0.4"
reqwest = { version = "0.12", default-features = false, features = ["json", "rustls-tls", "socks"] }
serde = { version = "1", features = ["derive"] }
serde_json = "1"
thiserror = "2"
tokio = { version = "1", features = ["rt-multi-thread"] }
url = "2"
