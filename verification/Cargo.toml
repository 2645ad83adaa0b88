[package]
name = "gpui-studio"
version = "0.1.0"
edition = "2021"
publish = false

[dependencies]
anyhow = "1"
ron = "=0.12.3"
serde = { version = "1", features = ["derive"] }
serde_json = "=1.0.154"
tempfile = "3"
thiserror = "2"
