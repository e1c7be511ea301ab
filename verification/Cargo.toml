[package]
name = "lean_link"
version = "0.1.0"
edition = "2021"
publish = false

[dependencies]
bytes = "*"
chrono = "*"
rand = "*"
serde = { version = "*", features = ["derive"] }
serde_yaml = "*"
tokio = { version = "*", features = ["io-util", "macros", "rt-multi-thread", "sync", "time"] }
tokio-serial = "*"
