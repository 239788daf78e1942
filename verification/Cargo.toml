[package]
name = "openhub"
version = "0.1.0"
edition = "2021"
publish = false

[dependencies]
regex-lite = "0.1"
serde = { version = "1", features = ["derive"] }
clap = { version = "4", features = ["derive"] }
anyhow = "1"
tokio = { version = "1", features = ["sync", "time", "rt"] }
zbus = "5"
tracing = "0.1"
