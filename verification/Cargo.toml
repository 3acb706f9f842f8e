[package]
name = "interruptible"
version = "0.1.0"
edition = "2021"
publish = false

[dependencies]
futures = "0.3"
own = "0.1"
stream-cancel = "0.8"
tokio = { version = "1", features = ["sync", "rt", "macros", "signal", "time"] }
