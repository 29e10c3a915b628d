[package]
name = "starknet_adapter"
version = "0.1.0"
edition = "2021"
publish = false

[dependencies]
starknet = "=0.4.0"
thiserror = "=1.0.69"
tokio = { version = "=1.53.2", features = ["rt"] }
tokio-util = "=0.7.19"
tonic = "=0.14.6"
tonic-reflection = "=0.14.6"
tracing = "=0.1.44"
url = "=2.5.8"
