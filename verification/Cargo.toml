[package]
name = "rpio_utils"
version = "0.1.0"
edition = "2021"
publish = false

[dependencies]
embedded-hal = "0.2"
embedded-time = "0.12"
rp2040-hal = "0.10"
rppal = { version = "0.22", features = ["hal"] }
