[package]
name = "netperf"
version = "0.1.0"
edition = "2021"
publish = false

[dependencies]
clap = "4"
futures-util = "0.3"
hickory-resolver = "0.24"
reqwest = { version = "0.12", default-features = false, features = ["stream", "rustls-tls"] }
tokio = { version = "1", features = ["macros", "rt-multi-thread", "net", "time"] }
