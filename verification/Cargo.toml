[package]
name = "mcp_proxy"
version = "0.1.0"
edition = "2021"
publish = false

[dependencies]
anyhow = "1"
arc-swap = "=1.9.3"
axum = "0.8"
backtrace = "0.3"
clap = { version = "4", features = ["derive"] }
dashmap = "=6.2.1"
futures = "0.3"
http = "=1.5.0"
log = "0.4"
process-wrap = { version = "9", features = ["tokio1"] }
reqwest = { version = "=0.13.5", default-features = false, features = ["json", "rustls-no-provider", "stream"] }
rmcp = { version = "=0.10.0", default-features = false, features = ["base64", "client", "server", "macros", "transport-sse-client", "transport-sse-server", "transport-io", "transport-child-process"] }
rmcp-soddygo = { version = "=1.8.0", default-features = false, features = ["base64", "client", "server", "macros", "transport-streamable-http-client-reqwest", "transport-streamable-http-server", "transport-io", "transport-child-process"] }
run_code_rmcp = "*"
rustls = { version = "0.23", default-features = false, features = ["ring", "std"] }
serde_json = "1"
sse-stream = "0.2"
tokio = { version = "1", features = ["full"] }
tokio-util = "0.7"
tower = "0.5"
tracing = "0.1"
tracing-appender = "0.2"
tracing-opentelemetry = "0.32"
tracing-subscriber = { version = "0.3", features = ["env-filter"] }
