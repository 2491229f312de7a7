[package]
name = "bucket_proof"
version = "0.1.0"
edition = "2021"
publish = false

[dependencies]
alloy = { version = "1", default-features = false }
axum = "0.8"
clap = { version = "4", features = ["derive"] }
hex = "0.4"
serde = { version = "1", features = ["derive"] }
serde_json = "1"
sp1-zkvm = "*"
tokio = { version = "1", features = ["full"] }
tracing = "0.1"
