[package]
name = "entitlement-stream"
version = "0.1.0"
edition = "2021"
publish = false

[dependencies]
futures = "=0.3.34"
graphql_client = { version = "=0.11.0", default-features = false }
pin-project-lite = "=0.2.17"
serde = { version = "=1.0.229", features = ["derive"] }
tokio-util = { version = "=0.7.20", features = ["time"] }

[dev-dependencies]
futures-test = "=0.3.34"
tokio = { version = "=1.54.1", features = ["rt", "rt-multi-thread", "time"] }
