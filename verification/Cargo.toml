[package]
name = "money_transfer"
version = "0.1.0"
edition = "2021"
publish = false

[dependencies]
aes-gcm = "=0.10.3"
prost = "=0.14.4"
temporalio-common = { version = "=1.1.1", features = ["vendored-protox"] }
uuid = { version = "=1.29.0", features = ["v4"] }
url = "=2.5.8"
temporalio-sdk = "=1.1.1"
temporalio-client = "=1.1.1"
temporalio-sdk-core = "=0.10.1"
temporalio-macros = "=1.1.1"
temporalio-workflow = "=1.1.1"
tokio = { version = "=1.54.1", features = ["full"] }
tracing = "=0.1.44"
tracing-subscriber = { version = "=0.3.23", features = ["env-filter"] }
anyhow = "=1.0.104"
futures = "=0.3.34"
serde = { version = "=1.0.229", features = ["derive"] }
