[package]
name = "ip_echo"
version = "0.1.0"
edition = "2021"
publish = false

[dependencies]
bincode = "1.3.3"
log = "0.4"
tokio = { version = "1", features = ["io-util", "net", "rt-multi-thread", "time"] }
