[package]
name = "mqtt_log_view"
version = "0.1.0"
edition = "2021"
publish = false

[dependencies]
serde = "1"
serde_json = "1"
json-pretty-compact = "*"
chrono = "0.4"
colored = "*"
term_size = "*"
regex = "1"
clap = { version = "4", features = ["derive", "env"] }
env_logger = "*"
log = "0.4"
tokio = { version = "1", features = ["macros", "rt", "rt-multi-thread", "signal", "sync", "time"] }
aws-iot-device-sdk-rust = "*"
