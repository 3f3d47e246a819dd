[package]
name = "serial_monitor"
version = "0.1.0"
edition = "2021"
publish = false

[dependencies]
clap = { version = "4", features = ["derive"] }
serialport = { version = "4", default-features = false }
utf8-read = "*"
