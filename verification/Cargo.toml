[package]
name = "trollbox"
version = "0.1.0"
edition = "2021"
publish = false

[dependencies]
futures = "0.3"
uuid = { version = "1", features = ["v4"] }
tokio = { version = "1", features = ["rt-multi-thread", "macros", "time"] }
async-mutex = "1"
