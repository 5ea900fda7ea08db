[package]
name = "g3_trader"
version = "0.1.0"
edition = "2021"
publish = false

[dependencies]
ctp-futures = "*"
serde = { version = "1", features = ["derive"] }
serde_json = "1"
tokio = { version = "1", features = ["rt-multi-thread", "macros", "sync", "time"] }
futures = "0.3"
log = "0.4"
bincode = { version = "2", features = ["derive"] }
tracing = "0.1"
tracing-appender = "0.2"
tracing-log = "0.2"
tracing-subscriber = { version = "0.3", features = ["env-filter", "chrono"] }
