[package]
name = "node_discovery"
version = "0.1.0"
edition = "2021"
publish = false

[dependencies]
anyhow = "=1.0.104"
futures-buffered = "=0.2.13"
futures-lite = "=2.6.1"
iroh-base = { version = "=0.14.0", features = ["key"] }
tokio = { version = "=1.54.1", features = ["rt", "macros", "sync", "time"] }
tracing = "=0.1.44"
