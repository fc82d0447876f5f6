[package]
name = "rphide"
version = "0.1.0"
edition = "2021"
publish = false

[dependencies]
byteorder = "=1.5.0"
toml = "=0.5.11"
serde = { version = "=1.0.229", features = ["derive"] }
interprocess = "=1.2.1"
sysinfo = "=0.26.9"
dirs = "=4.0.0"
log = "=0.4.35"
env_logger = "=0.9.3"
discord-sdk = "=0.3.8"
open = "=3.2.0"
eframe = { version = "0.20", default-features = false, features = ["glow"] }
egui = { version = "0.20", default-features = false }
tray-item = "0.7"
gtk = "0.15"
