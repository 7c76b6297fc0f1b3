[package]
name = "lpc55_isp"
version = "0.1.0"
edition = "2021"
publish = false

[dependencies]
anyhow = "1"
serialport = { version = "4", default-features = false }
