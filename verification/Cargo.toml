[package]
name = "evapanel"
version = "0.1.0"
edition = "2021"
publish = false

[dependencies]
async-trait = "=0.1.92"
bmart = "=0.2.12"
busrt = { version = "=0.5.6", features = ["broker", "ipc", "rpc"] }
clap = { version = "=4.6.7", features = ["derive"] }
env_logger = "=0.11.11"
eva-common = { version = "=0.4.9", features = ["bus-rpc"] }
hostname = "=0.4.2"
log = "=0.4.34"
serde = { version = "=1.0.229", features = ["derive"] }
serde_yaml = "=0.9.34"
shellexpand = "=3.1.2"
tokio = { version = "=1.54.1", features = ["rt", "sync", "time"] }
