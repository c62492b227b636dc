[package]
name = "openlv"
version = "0.1.0"
edition = "2021"
publish = false

[dependencies]
alloy = { version = "1", default-features = false, features = ["std", "consensus", "eips", "json-rpc", "network", "rpc-client", "rpc-types", "signers", "transports"] }
serde = { version = "1", features = ["derive"] }
serde_json = "1"
thiserror = "2"
tokio = { version = "1", features = ["rt", "sync", "time"] }
tower = "0.5"
tracing = "0.1"
uuid = { version = "1", features = ["v4"] }
