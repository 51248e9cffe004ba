[package]
name = "extcap"
version = "0.1.0"
edition = "2021"
publish = false

[dependencies]
bytes = "1"
clap = "2"
futures = "0.3"
log = "0.4"
pcap-file = "1"
tokio = { version = "1", features = ["fs", "rt"] }
tokio-util = { version = "0.7", features = ["codec"] }
