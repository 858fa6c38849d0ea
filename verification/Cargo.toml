[package]
name = "mdquery_rs"
version = "0.1.0"
edition = "2021"
publish = false

[dependencies]
chrono = "0.4"
anyhow = "1"
objc2-core-foundation = "0.3"
