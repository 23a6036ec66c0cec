[package]
name = "geist_vpn"
version = "0.1.0"
edition = "2021"
publish = false

[dependencies]
chrono = { version = "0.4", features = ["serde"] }
dirs = "5"
serde = { version = "1", features = ["derive"] }
serde_yaml = "0.9"
serde_json = "1"
tokio = { version = "1", features = ["rt-multi-thread", "time", "net", "io-util", "sync", "macros"] }
flume = "0.11"
once_cell = "1"
futures = "0.3"
tracing = "0.1"
tracing-subscriber = "0.3"
iced = { version = "0.13", default-features = false, features = ["tiny-skia", "tokio"] }
iced_futures = "0.13"
