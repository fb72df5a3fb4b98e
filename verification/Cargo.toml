[package]
name = "durable_trace"
version = "0.1.0"
edition = "2021"
publish = false

[dependencies]
serde = { version = "1", features = ["derive"] }
serde_json = "1"
serde_with = { version = "3", features = ["chrono"] }
sycamore = "0.9"
web-sys = { version = "0.3", features = ["Storage", "Window"] }
