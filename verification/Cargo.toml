[package]
name = "mcp_gateway"
version = "0.1.0"
edition = "2021"
publish = false

[dependencies]
uuid = { version = "1", features = ["v4"] }
base64 = "0.22"
jsonwebtoken = "9"
url = "2"
serde = { version = "1", features = ["derive"] }
serde_json = "1"
toml = "0.8"
axum = { version = "0.7", features = ["ws"] }
tokio = { version = "1", features = ["full"] }
tower = "0.4"
tower-http = { version = "0.5", features = ["compression-gzip", "cors", "request-id", "timeout", "trace", "catch-panic", "normalize-path", "fs", "set-header", "validate-request"] }
reqwest = { version = "0.12", default-features = false, features = ["json", "rustls-tls"] }
tokio-tungstenite = "0.21"
futures-util = { version = "0.3", features = ["sink"] }
prometheus = { version = "0.13", default-features = false }
chrono = "0.4"
clap = { version = "4", features = ["derive"] }
tracing = "0.1"
tracing-subscriber = { version = "0.3", features = ["env-filter", "json"] }
thiserror = "1"
async-trait = "0.1"
