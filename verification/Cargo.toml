[package]
name = "ecosystem"
version = "0.1.0"
edition = "2021"
publish = false

[dependencies]
anyhow = "1"
async-stream = "0.3"
clap = "2"
config = "0.11"
futures = "0.3"
futures-util = "0.3"
prost = "0.8"
serde = { version = "1", features = ["derive"] }
tokio = { version = "1", features = ["full"] }
tokio-stream = "0.1"
tonic = "0.5"
tracing = "0.1"
tracing-subscriber = "0.2"
