[package]
name = "sui-cluster-test"
version = "0.1.0"
edition = "2021"
publish = false

[dependencies]
anyhow = "1"
async-trait = "0.1"
bcs = "0.1"
futures = "0.3"
jsonrpsee = { version = "0.24", features = ["http-client"] }
serde_json = "1"
tokio = { version = "1", features = ["macros", "rt", "time"] }
tracing = "0.1"
