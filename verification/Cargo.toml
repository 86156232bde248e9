[package]
name = "tryagain"
version = "0.1.0"
edition = "2021"
publish = false

[dependencies]
async-std = "1"
pin-project = "1"
tokio = { version = "1", features = ["rt", "time"] }
