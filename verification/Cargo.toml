[package]
name = "ts_error_translator"
version = "0.1.0"
edition = "2021"
publish = false

[dependencies]
regex = "1"
serde_json = "1"
tokio = { version = "1", features = ["rt-multi-thread", "io-util", "io-std", "process", "macros"] }
