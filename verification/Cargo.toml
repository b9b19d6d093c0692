[package]
name = "tetron_webui"
version = "0.1.0"
edition = "2021"
publish = false

[dependencies]
anyhow = "*"
axum = "*"
blake3 = "*"
bs58 = "*"
clap = { version = "*", features = ["derive", "env"] }
dirs = "*"
iroh = { version = "*", default-features = false }
serde = { version = "*", features = ["derive"] }
serde_json = "*"
tempfile = "*"
tokio = { version = "*", features = ["full"] }
