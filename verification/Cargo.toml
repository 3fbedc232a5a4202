[package]
name = "bevy_brp_mcp"
version = "0.1.0"
edition = "2021"
publish = false

[dependencies]
regex = "1"
serde = { version = "1", features = ["derive"] }
serde_json = "1"
anyhow = "1"
thiserror = "2"
chrono = "0.4"
tokio = { version = "1", features = ["full"] }
reqwest = { version = "0.12", default-features = false, features = ["json"] }
rmcp = { version = "0.2", features = ["server", "transport-io"] }
cargo_metadata = "0.19"
sysinfo = "0.35"
futures = "0.3"
tracing = "0.1"
tracing-subscriber = "0.3"
tracing-appender = "0.2"
once_cell = "1"
error-stack = "0.5"
