[package]
name = "maplelink"
version = "0.1.0"
edition = "2021"
publish = false

[dependencies]
serde = { version = "1", features = ["derive"] }
tokio = { version = "1", features = ["sync", "fs", "rt"] }
tracing = "0.1"
