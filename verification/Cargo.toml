[package]
name = "clamav_stream"
version = "0.1.0"
edition = "2021"
publish = false

[dependencies]
bytes = "*"
pin-project = "*"
thiserror = "*"
tokio-stream = "*"
