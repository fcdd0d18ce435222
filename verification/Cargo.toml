[package]
name = "stress4844"
version = "0.1.0"
edition = "2021"
publish = false

[dependencies]
rand = "0.8"
chrono = { version = "0.4", default-features = false, features = ["clock"] }
serde_json = "1"
tokio = { version = "1", features = ["macros", "rt-multi-thread"] }
tracing = "0.1"
url = "2"
