[package]
name = "digiblock_test"
version = "0.1.0"
edition = "2021"
publish = false

[dependencies]
chrono = "*"
rppal = "*"
serde = { version = "*", features = ["derive"] }
serde_yaml = "*"
tokio = { version = "*", features = ["rt-multi-thread", "time", "sync", "process", "macros", "io-util"] }
tokio-modbus = "*"
tokio-serial = "*"
