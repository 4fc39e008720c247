[package]
name = "codex_runtime_policy"
version = "0.1.0"
edition = "2021"
publish = false

[dependencies]
serde = { version = "=1.0.229", features = ["derive"] }
serde_json = "=1.0.154"
tokio = { version = "=1.54.1", features = ["fs", "io-util", "macros", "net", "process", "rt", "signal", "time"] }
