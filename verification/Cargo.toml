[package]
name = "bog_core"
version = "0.1.0"
edition = "2021"
publish = false

[dependencies]
rust_decimal = "=1.43.0"
crossbeam = "=0.8.5"
rand = "=0.8.8"
serde = { version = "=1.0.229", features = ["derive"] }
serde_json = "=1.0.154"
anyhow = "1"
tracing = "0.1"
libc = "0.2"
core_affinity = "0.8"
ctrlc = "3"
signal-hook = "0.3"
prometheus = "0.13"
tokio = { version = "1", features = ["rt-multi-thread", "macros", "net", "time"] }
hyper = { version = "1", features = ["server", "http1"] }
hyper-util = { version = "0.1", features = ["tokio"] }
http-body-util = "0.1"
