[package]
name = "laira"
version = "0.1.0"
edition = "2021"
publish = false

[dependencies]
urlencoding = "*"
uuid = { version = "*", features = ["v4"] }
serde_json = "*"
reqwest = { version = "*", default-features = false }
tokio = { version = "*", features = ["fs", "time"] }
pdf-extract = "*"
