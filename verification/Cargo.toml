[package]
name = "status_bar"
version = "0.1.0"
edition = "2021"
publish = false

[dependencies]
sysinfo = "0.29"
tokio = { version = "1", features = ["rt", "time", "macros"] }
tokio-stream = "0.1"
