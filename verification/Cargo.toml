[package]
name = "dyn_timeout"
version = "0.2.0"
edition = "2021"
publish = false

[dependencies]
anyhow = "1"
tokio = { version = "1", default-features = false, features = ["rt", "time", "sync"] }
