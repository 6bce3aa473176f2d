[package]
name = "game_haptics_router"
version = "0.2.0"
edition = "2021"
publish = false

[dependencies]
anyhow = "=1.0.104"
aya = "=0.13.1"
aya-ebpf = "=0.1.1"
buttplug = "=10.0.3"
buttplug_core = "=10.0.3"
clap = { version = "=4.6.7", features = ["derive"] }
env_logger = "=0.11.11"
evdev = "=0.13.2"
futures-util = "=0.3.34"
log = "=0.4.35"
serde = { version = "=1.0.229", features = ["derive"] }
serde_json = "=1.0.154"
tokio = { version = "=1.54.1", features = ["full"] }
tokio-tungstenite = "=0.28.0"
