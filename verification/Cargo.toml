[package]
name = "gnss_signal"
version = "0.1.0"
edition = "2021"
publish = false

[dependencies]
anise = "=0.5.4"
env_logger = "=0.11.11"
serde = { version = "=1.0.229", features = ["derive"] }
thiserror = "=2.0.21"
