[package]
name = "aio_limited"
version = "0.1.0"
edition = "2021"
publish = false

[dependencies]
futures = "0.1"
log = "0.4"
parking_lot = "0.12"
tokio-executor = "0.1"
tokio-io = "0.1"
tokio-timer = "0.2"
