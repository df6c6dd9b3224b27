[package]
name = "zephyrus"
version = "0.1.0"
edition = "2021"
publish = false

[dependencies]
tracing = "0.1"
twilight-http = { version = "0.11", default-features = false }
twilight-model = "0.11"
