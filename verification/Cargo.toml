[package]
name = "mcp_manager"
version = "0.1.0"
edition = "2021"
publish = false

[dependencies]
nanoid = "=0.5.0"
serde = { version = "=1.0.229", features = ["derive"] }
serde_json = "=1.0.151"
rmcp = { version = "=3.5.1", features = ["client", "transport-child-process", "transport-streamable-http-client-reqwest"] }
tokio = { version = "=1.53.2", features = ["rt", "rt-multi-thread", "sync", "macros", "process", "io-util"] }
log = "=0.4.34"
