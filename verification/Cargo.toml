[package]
name = "fluvio_mini_http"
version = "0.1.0"
edition = "2021"
publish = false

[dependencies]
http = "0.2"
hyper = { version = "0.14", features = ["client", "http1", "tcp"] }
serde = "1"
serde_json = "1"
