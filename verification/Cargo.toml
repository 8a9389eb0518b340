[package]
name = "mqtt2influx"
version = "0.1.0"
edition = "2021"
publish = false

[dependencies]
serde_json = "=1.0.151"
time = { version = "=0.3.55", features = ["parsing"] }
serde = { version = "*", features = ["derive"] }
log = "*"
env_logger = "*"
clap = { version = "*", features = ["derive"] }
anyhow = "*"
thiserror = "*"
toml = "*"
fastrand = "*"
tokio = { version = "*", features = ["rt-multi-thread", "macros"] }
rumqttc = { version = "=0.25.1", features = ["url"] }
reqwest = { version = "*", default-features = false }
