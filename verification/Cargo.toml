[package]
name = "cohete"
version = "0.1.0"
edition = "2021"
publish = false

[dependencies]
serde = { version = "1", features = ["derive"] }
serde_yaml = "0.9"
thiserror = "1"
tokio = { version = "1", default-features = false, features = ["time"] }
tracing = { version = "0.1", default-features = false }
