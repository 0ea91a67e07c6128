[package]
name = "tun"
version = "0.1.0"
edition = "2021"
publish = false

[dependencies]
wintun = "=0.2.1"
tokio = { version = "=1.54.1", features = ["io-util"] }
tokio-util = { version = "=0.7.20", features = ["codec"] }
futures-core = "=0.3.34"
bytes = "=1.12.1"
