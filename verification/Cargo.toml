[package]
name = "network_client"
version = "0.1.0"
edition = "2021"
publish = false

[dependencies]
parking_lot = "0.12"
tokio = { version = "1", features = ["time", "rt", "macros"] }
async-trait = "0.1"
tracing = "0.1"
anyhow = "1"
axum = "0.6"
prometheus = "0.13"
protobuf = "2"
clap = { version = "4", features = ["derive"] }
