[package]
name = "keylogger"
version = "0.1.0"
edition = "2021"
publish = false

[dependencies]
chrono = "0.4"
tokio = { version = "1", features = ["net", "rt", "rt-multi-thread", "io-util", "sync", "macros"] }
futures = "0.3"
libc = "0.2"
async-trait = "0.1"
