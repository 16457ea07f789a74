[package]
name = "tether_artnet_controller"
version = "0.1.0"
edition = "2021"
publish = false

[dependencies]
anyhow = "1"
artnet_protocol = "0.4.4"
clap = { version = "4", default-features = false, features = ["derive", "std", "help", "usage", "error-context"] }
ctrlc = "3"
eframe = { version = "0.27", default-features = false, features = ["glow"] }
egui = { version = "0.27", features = ["serde"] }
env_logger = { version = "0.11", default-features = false }
indexmap = { version = "2", features = ["serde"] }
log = "0.4"
rand = "0.8"
rmp-serde = "1"
serde = { version = "1", features = ["derive"] }
serde_json = "1"
tether-agent = "0.14"
tween = "2"
