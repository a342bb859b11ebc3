[package]
name = "node_launchpad"
version = "0.1.0"
edition = "2021"
publish = false

[dependencies]
color-eyre = "0.6"
ratatui = "0.26"
tokio = { version = "1", features = ["rt", "sync"] }
tracing = "0.1"
