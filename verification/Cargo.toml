[package]
name = "nats_jetstream_pull_consumer"
version = "0.1.0"
edition = "2021"
publish = false

[dependencies]
anyhow = "1"
lz4_flex = "0.11"
async-nats = "*"
async-trait = "*"
bytes = "1"
futures = "0.3"
serde = { version = "1", features = ["derive"] }
thiserror = "*"
tokio = { version = "1", features = ["macros", "rt-multi-thread", "time", "sync"] }
tokio-util = "*"
tracing = "0.1"
