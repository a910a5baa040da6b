[package]
name = "dlna_server"
version = "0.1.0"
edition = "2021"
publish = false

[dependencies]
dotenvy = "0.15"
hyper = { version = "0.14", features = ["full"] }
reqwest = { version = "0.11", default-features = false }
tokio = { version = "1", features = ["full"] }
