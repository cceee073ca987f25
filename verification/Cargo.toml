[package]
name = "starriver"
version = "0.1.0"
edition = "2021"
publish = false

[dependencies]
anyhow = "1"
axum = { version = "0.8", features = ["multipart"] }
axum-extra = { version = "*", features = ["cookie", "form"] }
axum-valid = "*"
bytes = "1"
infer = "*"
sea-orm = "1"
serde = { version = "1", features = ["derive"] }
serde_json = "1"
time = "0.3"
tokio = { version = "1", features = ["fs", "io-util", "time", "macros", "rt-multi-thread"] }
tracing = "0.1"
uuid = { version = "1", features = ["v7", "serde"] }
validator = { version = "*", features = ["derive"] }
