[package]
name = "naga_remap"
version = "0.1.0"
edition = "2021"
publish = false

[dependencies]
evdev-rs = "=0.1.0"
serde = { version = "=1.0.229", features = ["derive"] }
toml = "=0.5.11"
uinput = { version = "=0.1.3", default-features = false }
