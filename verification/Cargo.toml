[package]
name = "figma_cli"
version = "0.1.0"
edition = "2021"
publish = false

[dependencies]
anyhow = "1"
axum = { version = "0.7", features = ["ws"] }
base64 = "0.22"
clap = { version = "4", features = ["derive"] }
dirs = "5"
futures-util = { version = "0.3", features = ["sink"] }
image = "0.25"
rand = "0.8"
reqwest = { version = "0.12", default-features = false, features = ["json", "blocking", "rustls-tls"] }
rquickjs = "0.6"
serde = { version = "1", features = ["derive"] }
serde_json = "1"
tokio = { version = "1", features = ["full"] }
