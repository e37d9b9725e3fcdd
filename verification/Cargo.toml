[package]
name = "havendrive"
version = "0.1.0"
edition = "2021"
publish = false

[dependencies]
anyhow = "*"
chrono = "*"
clap = { version = "*", features = ["derive"] }
log = "*"
socketcan = "*"
tokio = { version = "*", features = ["full"] }
