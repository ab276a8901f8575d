[package]
name = "dmzj2pdf"
version = "0.1.0"
edition = "2021"
publish = false

[dependencies]
clap = { version = "=4.6.7", features = ["derive"] }
dmzj = "=0.3.0"
mktemp = "=0.5.1"
protobuf = "=3.3.0"
reqwest = "=0.13.5"
tokio = { version = "=1.54.1", features = ["full"] }
tokio-retry = "=0.3.2"
trauma = "=2.5.0"
