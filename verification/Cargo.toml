[package]
name = "sway_tools"
version = "0.1.0"
edition = "2021"
publish = false

[dependencies]
fuel-crypto = { version = "=0.5.0", default-features = false }
fuel-types = { version = "=0.5.3", default-features = false }
ropey = "1.6"
serde = { version = "=1.0.229", features = ["derive"] }
toml = "=0.5.11"
