[package]
name = "http_client"
version = "0.1.0"
edition = "2021"
publish = false

[dependencies]
reqwest = { version = "*", default-features = false, features = ["blocking", "multipart"] }
clap = { version = "*", features = ["derive"] }
