[package]
name = "wrpc_test"
version = "0.1.0"
edition = "2021"
publish = false

[dependencies]
anyhow = "1"
async-nats = "*"
quinn = "0.11"
rcgen = "0.13"
rustls = { version = "0.23", default-features = false, features = ["ring", "logging", "std", "tls12"] }
tokio = { version = "1", features = ["macros", "net", "process", "rt", "sync", "time"] }
url = "2"
web-transport-quinn = "*"
wrpc-cli = "*"
