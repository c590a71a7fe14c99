[package]
name = "fanbox_dl"
version = "0.1.0"
edition = "2021"
publish = false

[dependencies]
anyhow = "*"
chrono = "*"
clap = { version = "*", features = ["derive", "env"] }
filetime = "*"
futures = "*"
reqwest = { version = "*", default-features = false, features = ["rustls-tls", "stream"] }
serde_json = "*"
tokio = { version = "*", features = ["rt-multi-thread", "macros", "fs", "io-util"] }
tokio-util = { version = "*", features = ["io"] }
tracing = "*"
tracing-subscriber = "*"
