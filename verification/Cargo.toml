[package]
name = "ipc"
version = "0.1.0"
edition = "2021"
publish = false

[dependencies]
logs = "*"
tokio = { version = "1", features = ["net", "io-util", "rt", "fs"] }
