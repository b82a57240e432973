[package]
name = "orbiscreen"
version = "0.1.0"
edition = "2021"
publish = false

[dependencies]
drm-fourcc = "=2.2.0"
serde = { version = "=1.0.229", features = ["derive"] }
serde_json = { version = "=1.0.154", features = ["raw_value"] }
toml = "=1.1.8"
clap = { version = "=4.6.7", features = ["derive"] }
hostname = "=0.4.2"
zbus = "=5.19.0"
