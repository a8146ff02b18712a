[package]
name = "pulsar_core"
version = "0.1.0"
edition = "2021"
publish = false

[dependencies]
serde = { version = "=1.0.229", features = ["derive"] }
serde_json = "=1.0.154"
tokio = { version = "=1.54.1", features = ["rt", "rt-multi-thread", "sync", "macros", "time"] }
tokio-util = "=0.7.20"
rusqlite = { version = "=0.41.1", features = ["bundled"] }
reqwest = { version = "=0.12.28", default-features = false, features = ["json", "stream", "rustls-tls"] }
async-openai = { version = "=0.43.0", features = ["chat-completion"] }
async-trait = "=0.1.92"
futures-util = "=0.3.34"
tracing = "=0.1.44"
