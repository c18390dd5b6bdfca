[package]
name = "sensor_link"
version = "0.1.0"
edition = "2021"
publish = false

[dependencies]
btleplug = "0.11"
futures = "0.3"
pretty_env_logger = "0.5"
prometheus_exporter = "0.8"
tokio = { version = "1", features = ["rt-multi-thread", "macros", "time"] }
uuid = "1"
