[package]
name = "echo_server"
version = "0.1.0"
edition = "2021"
publish = false

[dependencies]
tokio = { version = "1", features = ["macros", "net", "rt-multi-thread"] }
tokio-tungstenite = "*"
futures-util = "0.3"
log = "0.4"
env_logger = "*"
