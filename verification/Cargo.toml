[package]
name = "ord_stream"
version = "0.1.0"
edition = "2021"
publish = false

[dependencies]
rdkafka = { version = "=0.39.0", default-features = false, features = ["ssl"] }
serde = { version = "=1.0.229", features = ["derive"] }
serde_json = "=1.0.154"
serde_yaml = "=0.9.34"
tokio = { version = "=1.54.1", features = ["rt", "rt-multi-thread", "sync", "time"] }
log = "=0.4.34"
clap = { version = "=4.6.7", features = ["derive"] }
