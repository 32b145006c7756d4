[package]
name = "taikoscope"
version = "0.1.0"
edition = "2021"
publish = false

[dependencies]
chrono = { version = "0.4", default-features = false, features = ["std", "clock"] }
serde = { version = "1", features = ["derive"] }
serde_json = "1"
eyre = "0.6"
reqwest = { version = "0.12", default-features = false, features = ["json"] }
tokio = { version = "1", features = ["rt", "time", "sync", "macros"] }
alloy-primitives = "1"
alloy-network-primitives = "1"
tracing = "0.1"
