[package]
name = "qrcode_scanner"
version = "0.1.0"
edition = "2021"
publish = false

[dependencies]
image = "*"
rxing = "*"
v4l = "*"

[dev-dependencies]
ffimage = "*"
ffimage_yuv = "*"
