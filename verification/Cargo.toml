[package]
name = "standing-desk-reminder"
version = "0.1.0"
edition = "2021"
publish = false

[dependencies]
anyhow = "=1.0.104"
clap = { version = "=4.6.7", features = ["derive"] }
ctrlc = "=3.5.2"
directories = "=6.0.0"
env_logger = "=0.11.11"
humantime = "=2.4.0"
humantime-serde = "=1.1.1"
ksni = { version = "=0.3.7", features = ["blocking"] }
log = "=0.4.35"
notify-rust = "=4.18.2"
serde = { version = "=1.0.229", features = ["derive"] }
toml = "=1.1.8"
zbus = "=5.19.0"
