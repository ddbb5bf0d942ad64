[package]
name = "fetch_open"
version = "0.1.0"
edition = "2021"
publish = false

[dependencies]
reqwest = { version = "*", default-features = false }
tokio = { version = "*", features = ["fs", "io-util", "macros", "rt-multi-thread"] }
