[package]
name = "turtle_server"
version = "0.1.0"
edition = "2021"
publish = false

[dependencies]
tokio = { version = "1", features = ["rt", "rt-multi-thread", "sync", "macros"] }
ipc-channel = "*"
serde = { version = "1", features = ["derive"] }
