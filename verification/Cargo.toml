[package]
name = "mira"
version = "0.1.0"
edition = "2021"
publish = false

[dependencies]
json = "=0.12.4"
miniz_oxide = "=0.9.1"
anyhow = "1"
bytes = "1"
futures-sink = "0.3"
futures-util = { version = "0.3", features = ["sink"] }
hyper = { version = "0.14", features = ["client", "http1", "tcp"] }
tokio = { version = "1", features = ["full"] }
tokio-util = { version = "0.7", features = ["codec"] }
