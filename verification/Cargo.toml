[package]
name = "multipathd_exporter"
version = "0.1.0"
edition = "2021"
publish = false

[dependencies]
axum = "*"
prometheus = "*"
serde_json = "*"
tokio = { version = "*", features = ["macros", "rt-multi-thread", "signal", "net"] }
tracing-subscriber = "*"
