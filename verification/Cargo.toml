[package]
name = "event_bus"
version = "0.1.0"
edition = "2021"
publish = false

[dependencies]
async-trait = "0.1"
regex = "1"
ricq = "*"
tokio = { version = "1", features = ["rt", "rt-multi-thread", "sync", "time"] }
tracing = "0.1"
