[package]
name = "proxy_server"
version = "0.1.0"
edition = "2021"
publish = false

[dependencies]
dns-lookup = "*"
reqwest = { version = "*", default-features = false }
tokio = { version = "1", features = ["net", "io-util", "sync", "rt-multi-thread", "macros"] }
