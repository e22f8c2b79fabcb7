[package]
name = "rustwatchman"
version = "0.1.0"
edition = "2021"
publish = false

[dependencies]
regex = "*"
chrono = "*"
tokio = { version = "*", features = ["rt-multi-thread"] }
aws-config = "*"
aws-sdk-cloudwatchlogs = "*"
tracing-subscriber = "*"
async-trait = "*"
