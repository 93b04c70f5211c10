[package]
name = "socks-rs"
version = "0.1.0"
edition = "2021"
publish = false

[dependencies]
async-trait = "0.1"
bytes = "1"
futures = "0.3"
log = "0.4"
thiserror = "1"
tokio = { version = "1", features = ["io-util", "net", "rt"] }
tokio-native-tls = "0.3"
