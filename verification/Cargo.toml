[package]
name = "agnes_mcp"
version = "0.1.0"
edition = "2021"
publish = false

[dependencies]
base64 = "=0.22.1"
regex-lite = "=0.1.9"
urlencoding = "=2.1.3"
serde = { version = "=1.0.229", features = ["derive"] }
serde_json = "=1.0.154"
toml = "=0.8.23"
tokio = { version = "=1.54.1", features = ["full"] }
reqwest = { version = "=0.12.28", default-features = false, features = ["json", "rustls-tls"] }
rust-mcp-sdk = "=0.9.0"
clap = { version = "=4.6.7", features = ["derive", "env"] }
tracing = "=0.1.44"
tracing-subscriber = { version = "=0.3.23", features = ["env-filter", "fmt"] }
chrono = "=0.4.45"
uuid = { version = "=1.29.0", features = ["v4"] }
async-trait = "=0.1.92"
thiserror = "=2.0.21"
libc = "=0.2.191"
