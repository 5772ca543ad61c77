[package]
name = "bees"
version = "0.1.0"
edition = "2021"
publish = false

[dependencies]
dashmap = "*"
reqwest = { version = "*", default-features = false, features = ["stream"] }
url = "*"
async-rate-limiter = "*"
futures-util = "*"
tokio = { version = "*", features = ["rt-multi-thread", "macros", "time"] }
