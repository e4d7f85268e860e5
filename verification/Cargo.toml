[package]
name = "rust_mcp_server"
version = "0.1.0"
edition = "2021"
publish = false

[dependencies]
serde_json = "1"
gethostname = "*"
tokio = { version = "1", features = ["io-std", "io-util", "rt", "macros", "sync"] }
clap = { version = "4", features = ["derive"] }
tracing = "0.1"
tracing-subscriber = "0.3"
anyhow = "1"
