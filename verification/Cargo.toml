[package]
name = "oxitimer"
version = "0.1.0"
edition = "2021"
publish = false

[dependencies]
anyhow = "1"
clap = { version = "4", features = ["derive"] }
crossterm = "0.28"
rodio = "0.20"
tokio = { version = "1", features = ["full"] }
