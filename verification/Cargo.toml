[package]
name = "basic-axum-rate-limit"
version = "0.1.0"
edition = "2021"
publish = false

[dependencies]
async-trait = "0.1"
axum = "0.8"
chrono = { version = "0.4", default-features = false, features = ["clock"] }
dashmap = "6"
lazy_static = "1"
prometheus = { version = "0.13", default-features = false }
regex = "1"
tokio = { version = "1", features = ["rt", "sync"] }
tracing = "0.1"
