[package]
name = "qr_craft"
version = "0.1.0"
edition = "2021"
publish = false

[dependencies]
qrcode = "=0.14.1"
image = { version = "=0.25.10", default-features = false, features = ["png", "jpeg"] }
resvg = "=0.48.1"
base64 = "=0.23.1"
serde = { version = "=1.0.229", features = ["derive"] }
serde_json = "=1.0.151"
