[package]
name = "esparrier"
version = "0.1.0"
edition = "2021"
publish = false

[dependencies]
heapless = { version = "0.8", features = ["serde"] }
serde = { version = "1", features = ["derive"], default-features = false }
serde-json-core = "0.6"
