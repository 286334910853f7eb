[package]
name = "scope_spawn"
version = "0.1.0"
edition = "2021"
publish = false

[dependencies]
tokio = { version = "=1.54.1", features = ["rt", "rt-multi-thread", "sync", "time", "macros"] }
tokio-util = { version = "=0.7.20", features = ["rt"] }
tower = "=0.5.3"
pin-project = "=1.1.13"
opentelemetry = { version = "=0.33.1", features = ["metrics"] }
futures-util = { version = "=0.3.34", default-features = false, features = ["std"] }
