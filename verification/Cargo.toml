[package]
name = "goose_sandbox"
version = "0.1.0"
edition = "2021"
publish = false

[dependencies]
which = "*"
dirs = "*"
anyhow = "*"
serde = { version = "*", features = ["derive"] }
tokio = { version = "*", features = ["process"] }
