[package]
name = "asus_touchpad_numpad"
version = "0.1.0"
edition = "2021"
publish = false

[dependencies]
evdev = "0.13"
i2cdev = "0.6"
regex = "1"
serde = { version = "1", features = ["derive"] }
serde_json = "1"
log = "0.4"
env_logger = "0.11"
