[package]
name = "krunch"
version = "0.1.0"
edition = "2021"
publish = false

[dependencies]
actix-cors = "0.6"
actix-web = "4"
anyhow = "1"
base64 = "0.21"
clap = { version = "4", features = ["derive"] }
env_logger = "0.10"
flate2 = "1"
futures = "0.3"
home = "0.5"
indicatif = "0.17"
k8s-openapi = { version = "0.18", features = ["v1_26"] }
kube = { version = "0.82", default-features = false, features = ["client", "rustls-tls", "ws"] }
log = "0.4"
rcgen = "0.10"
regex = "1"
reqwest = { version = "0.11", default-features = false, features = ["rustls-tls", "stream"] }
serde = { version = "1", features = ["derive"] }
serde_json = "1"
tar = "0.4"
tempfile = "3"
terminal_size = "0.2"
tokio = { version = "1", features = ["full"] }
walkdir = "2"
zip = { version = "0.6", default-features = false, features = ["deflate"] }
