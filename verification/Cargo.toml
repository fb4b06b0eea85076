[package]
name = "accessibility_mcp"
version = "0.1.0"
edition = "2021"
publish = false

[dependencies]
anyhow = "1"
core-foundation = "0.9"
serde = { version = "1", features = ["derive"] }
serde_json = "1"
tokio = { version = "1", features = ["rt", "rt-multi-thread", "io-util", "io-std", "net", "sync", "macros", "time"] }
tracing = "0.1"
tracing-subscriber = "0.3"
