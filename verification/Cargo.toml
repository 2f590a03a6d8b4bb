[package]
name = "mempool_guard"
version = "0.1.0"
edition = "2021"
publish = false

[dependencies]
serde_json = "1"
anyhow = "1"
reqwest = { version = "*", default-features = false }
tokio = { version = "1", features = ["macros", "rt"] }
