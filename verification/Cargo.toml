[package]
name = "prompt_library"
version = "0.1.0"
edition = "2021"
publish = false

[dependencies]
mongodb = "3"
poem = "3"
poem-openapi = { version = "5", features = ["swagger-ui"] }
serde = { version = "1", features = ["derive"] }
serde_json = "1"
tokio = { version = "1", features = ["fs", "macros", "rt-multi-thread"] }
tracing = "0.1"
tracing-subscriber = { version = "0.3", features = ["env-filter"] }
