[package]
name = "loadgen"
version = "0.1.0"
edition = "2021"
publish = false

[dependencies]
rand = "0.8"
url = "2"
tokio = { version = "1", features = ["macros", "rt-multi-thread", "time", "sync"] }
tokio-tungstenite = "*"
futures-util = { version = "0.3", features = ["sink"] }
