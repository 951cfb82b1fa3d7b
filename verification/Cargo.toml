[package]
name = "network_benchmark"
version = "0.1.0"
edition = "2021"
publish = false

[dependencies]
serde = { version = "1", features = ["derive"] }
tokio = { version = "1", features = ["full"] }
async-channel = "2"
futures = "0.3"
bytes = "1"
once_cell = "1"
