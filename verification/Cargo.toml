[package]
name = "qr_checkin"
version = "0.1.0"
edition = "2021"
publish = false

[dependencies]
base64 = "*"
image = "*"
rqrr = "*"

[dev-dependencies]
qrcode = "*"
