[package]
name = "electrode"
version = "0.1.0"
edition = "2021"
publish = false

[dependencies]
chrono = { version = "=0.4.26", default-features = false }
clap = "=4.6.7"
dora-node-api = { version = "=0.2.6", default-features = false }
log = "=0.4.34"
simple_logger = "=5.2.0"
tokio = { version = "=1.53.2", features = ["rt"] }
