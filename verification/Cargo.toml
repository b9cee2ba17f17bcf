[package]
name = "gateway"
version = "0.1.0"
edition = "2021"
publish = false

[dependencies]
dashmap = "=5.5.3"
hex = "=0.4.3"
hyper = { version = "=0.14.32", features = ["client", "http1", "stream"] }
hyper-trust-dns = { version = "=0.4.2", features = ["rustls-native"] }
parking_lot = "=0.12.5"
rand_core = "=0.6.4"
ring = "=0.16.20"
serde_json = "=1.0.154"
tokio = { version = "=1.54.1", features = ["sync"] }
twilight-http = "=0.11.1"
twilight-model = "=0.11.3"
