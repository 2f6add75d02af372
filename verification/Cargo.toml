[package]
name = "discli"
version = "0.1.0"
edition = "2021"
publish = false

[dependencies]
clap = { version = "=4.6.7", features = ["derive"] }
dotenv = "=0.15.0"
mime_guess = "=2.0.5"
regex = "=1.13.1"
regex-syntax = "=0.8.11"
reqwest = { version = "=0.12.28", features = ["json", "multipart"] }
serde = { version = "=1.0.229", features = ["derive"] }
serde_json = "=1.0.154"
serde_yaml = "=0.9.34"
thiserror = "=1.0.69"
tokio = { version = "=1.54.1", features = ["full"] }
tracing = "=0.1.44"
twilight-gateway = "=0.16.0"
twilight-model = "=0.16.0"
