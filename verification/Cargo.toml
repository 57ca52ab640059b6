[package]
name = "exists_map"
version = "0.1.0"
edition = "2021"
publish = false

[dependencies]
ahash = "0.8"

[dev-dependencies]
fastrand = "2"
