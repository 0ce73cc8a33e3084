[package]
name = "drill"
version = "0.1.0"
edition = "2021"
publish = false

[dependencies]
uuid = { version = "1", features = ["v4"] }
tokio = { version = "1", features = ["rt-multi-thread", "sync", "time", "macros"] }
dirs = "5"
chrono = "0.4"
