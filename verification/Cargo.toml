[package]
name = "mount_guard"
version = "0.1.0"
edition = "2021"
publish = false

[dependencies]
anyhow = "1"
tempfile = "3"
tokio = { version = "1", features = ["process", "rt-multi-thread"] }
tracing = "0.1"
