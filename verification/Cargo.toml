[package]
name = "gleanmark"
version = "0.1.7"
edition = "2021"
publish = false

[dependencies]
chrono = "=0.4.45"
dirs = "=6.0.0"
opencc-jieba-rs = "=0.8.1"
serde = { version = "=1.0.229", features = ["derive"] }
serde_json = "=1.0.154"
uuid = { version = "=1.29.0", features = ["v4"] }
reqwest = { version = "=0.12.28", default-features = false, features = ["json", "rustls-tls"] }
qdrant-client = { version = "=1.20.0", default-features = false }
tokio = { version = "=1.54.1", features = ["full"] }
axum = "=0.8.9"
tower-http = { version = "=0.6.11", features = ["cors"] }
anyhow = "=1.0.104"
thiserror = "=2.0.21"
tracing = "=0.1.44"
tracing-subscriber = { version = "=0.3.23", features = ["env-filter"] }
clap = { version = "=4.6.7", features = ["derive"] }
toml = "=0.8.23"
async-trait = "=0.1.92"
open = "=5.4.5"
rmcp = { version = "=3.8.0", features = ["server", "macros", "transport-io"] }
fastembed = { version = "=7.5.0", default-features = false, features = ["onnx", "hf-hub-rustls-tls"] }
