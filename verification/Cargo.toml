[package]
name = "mermaid-rs-remote-renderer"
version = "0.1.0"
edition = "2021"
publish = false

[dependencies]
anyhow = "1"
axum = "0.8"
base64 = "0.22"
clap = { version = "4", features = ["derive", "env"] }
mermaid-rs-renderer = "*"
miniz_oxide = "0.8"
serde = { version = "1", features = ["derive"] }
serde_json = "1"
thiserror = "2"
tokio = { version = "1", features = ["macros", "rt-multi-thread", "net", "signal", "time", "sync"] }
tower = { version = "0.5", features = ["util"] }
tower_governor = "*"
tower-http = { version = "0.6", features = ["trace", "request-id", "timeout", "util"] }
tracing = "0.1"
tracing-subscriber = { version = "0.3", features = ["env-filter", "fmt"] }
