[package]
name = "imageservice"
version = "0.1.0"
edition = "2021"
publish = false

[dependencies]
rand = "0.8"
hyper = { version = "0.14", features = ["server", "http1", "tcp", "runtime", "stream"] }
tokio = { version = "1", features = ["rt-multi-thread", "net", "fs", "io-util", "macros"] }
futures = "0.3"
hyper-staticfile = "0.9"
