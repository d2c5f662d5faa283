[package]
name = "qr_commands"
version = "0.1.0"
edition = "2021"
publish = false

[dependencies]
qrcode = { version = "=0.14.1", default-features = false, features = ["svg"] }
dirs = "=7.0.0"
open = "=5.4.4"
