[package]
name = "etcd"
version = "0.1.0"
edition = "2021"
publish = false

[dependencies]
serde_json = "1"
url = "2"
serde = { version = "1", features = ["derive"] }
serde_derive = "1"
base64 = "0.13"
bytes = "1"
futures = "0.3"
hyper = { version = "0.14", features = ["client", "http1", "tcp"] }
tokio = { version = "1", features = ["rt", "time"] }
