[package]
name = "futures_native_timers"
version = "0.1.0"
edition = "2021"
publish = false

[dependencies]
futures = { version = "0.3", default-features = false, features = ["std"] }
libc = "0.2"
pin-utils = "0.1"
winapi = { version = "0.3", features = ["minwindef", "winnt", "threadpoolapiset"] }
