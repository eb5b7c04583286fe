[package]
name = "gateway_ingress"
version = "0.1.0"
edition = "2021"
publish = false

[dependencies]
log = "0.4"
tokio = { version = "1", features = ["net", "rt", "sync"] }
