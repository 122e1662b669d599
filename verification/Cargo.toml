[package]
name = "tether_egui"
version = "0.1.0"
edition = "2021"
publish = false

[dependencies]
circular-buffer = "=2.0.1"
rmp-serde = "=1.3.1"
rmpv = { version = "=1.3.1", features = ["with-serde"] }
serde = { version = "=1.0.229", features = ["derive"] }
serde_json = "=1.0.151"
clap = { version = "=4.6.7", features = ["derive"] }
log = "=0.4.34"
env_logger = "=0.11.11"
tether-agent = "=0.14.2"
