[package]
name = "rhino"
version = "0.1.0"
edition = "2021"
publish = false

[dependencies]
tonic = { version = "*", default-features = false }
tokio = { version = "1", features = ["sync", "rt", "macros"] }
