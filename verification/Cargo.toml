[package]
name = "persevere"
version = "0.1.0"
edition = "2021"
publish = false

[dependencies]
anyhow = "=1.0.104"
aws-config = "=1.12.0"
aws-sdk-s3 = { version = "=1.152.0", features = ["http-1x"] }
aws-types = "=1.6.0"
clap = { version = "=4.6.7", features = ["derive"] }
http-body = "=1.1.0"
http-body-util = "=0.1.5"
serde = { version = "=1.0.229", features = ["derive"] }
serde_json = "=1.0.154"
tokio = { version = "=1.54.1", features = ["fs", "io-util", "macros", "rt-multi-thread"] }
tokio-util = { version = "=0.7.20", features = ["codec", "io"] }
tracing = "=0.1.44"
tracing-subscriber = { version = "=0.3.23", features = ["env-filter"] }
