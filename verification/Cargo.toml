[package]
name = "channel_async"
version = "0.1.0"
edition = "2021"
publish = false

[dependencies]
crossbeam-channel = "0.5"
futures = "0.1"
tokio-timer = "0.2"
