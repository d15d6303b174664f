[package]
name = "bits_core"
version = "0.1.0"
edition = "2021"
publish = false

[dependencies]
async-graphql = { version = "=6.0.11", features = ["dynamic-schema", "uuid"] }
serde = { version = "=1.0.229", features = ["derive"] }
thiserror = "=1.0.69"
uuid = { version = "=1.29.1", features = ["v4", "serde"] }

[dev-dependencies]
chrono = { version = "=0.4.45", features = ["serde"] }
