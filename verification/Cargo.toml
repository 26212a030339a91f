[package]
name = "swissknife-ai-sdk"
version = "0.1.0"
edition = "2021"
publish = false

[dependencies]
serde = { version = "=1.0.229", features = ["derive"] }
serde_json = "=1.0.154"
reqwest = { version = "=0.12.28", default-features = false, features = ["json", "multipart", "stream", "rustls-tls"] }
tokio = { version = "=1.54.1", features = ["full"] }
axum = "=0.8.9"
tower-http = { version = "=0.6.11", features = ["cors"] }
clap = { version = "=4.6.7", features = ["derive"] }
rmcp = { version = "=3.8.0", features = ["client", "server", "transport-io"] }
schemars = "=1.2.3"
thiserror = "=2.0.21"
async-trait = "=0.1.92"
futures-util = "=0.3.34"
async-stream = "=0.3.6"
chrono = "=0.4.45"
dirs = "=7.0.0"
uuid = { version = "=1.29.1", features = ["v4"] }
