[package]
name = "sc64_link"
version = "0.1.0"
edition = "2021"
publish = false

[dependencies]
serial2 = "0.2"
serialport = { version = "4", default-features = false }
