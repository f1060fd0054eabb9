[package]
name = "hiroz"
version = "0.1.0"
edition = "2021"
publish = false

[dependencies]
parking_lot = "0.12"
event-listener = "5"
tokio = { version = "1", features = ["sync", "time", "rt", "macros"] }
tokio-util = "0.7"
