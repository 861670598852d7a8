[package]
name = "makima"
version = "0.1.0"
edition = "2021"
publish = false

[dependencies]
agent-client-protocol-schema = { version = "*", features = ["unstable"] }
flume = "*"
futures-lite = "*"
serde = { version = "1", features = ["derive"] }
serde_json = "1"
serde_yaml = "0.9"
smol = "2"
thiserror = "2"
tracing = "0.1"
