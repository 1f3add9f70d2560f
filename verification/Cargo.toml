[package]
name = "z407_puck"
version = "0.1.0"
edition = "2021"
publish = false

[dependencies]
anyhow = "1"
bluest = "0.6"
env_logger = "0.11"
futures-util = "0.3"
hex = "0.4"
tokio = { version = "1", features = ["rt-multi-thread", "time"] }

[dev-dependencies]
uuid = "1"
