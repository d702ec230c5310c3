[package]
name = "tureng"
version = "0.1.0"
edition = "2021"
publish = false

[dependencies]
crossterm = { version = "*", features = ["event-stream"] }
futures-util = "*"
miniserde = "*"
reqwest = { version = "*", default-features = false, features = ["gzip"] }
tokio = { version = "*", features = ["macros", "rt", "time"] }
