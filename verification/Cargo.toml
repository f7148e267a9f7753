[package]
name = "ddk_server"
version = "0.1.0"
edition = "2021"
publish = false

[dependencies]
anyhow = "1"
chrono = "0.4"
dirs = "*"
fslock = "0.2"
lazy_static = "1"
notify = "*"
regex = "1"
ron = "*"
scopeguard = "1"
serde = { version = "1", features = ["derive"] }
serde_json = "1"
tempfile = "3"
tokio = { version = "1", features = ["full"] }
tower-lsp = "0.20"
