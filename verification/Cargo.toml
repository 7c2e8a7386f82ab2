[package]
name = "openpulse-repeater"
version = "0.1.0"
edition = "2021"
publish = false

[dependencies]
serialport = { version = "4", default-features = false }
thiserror = "1"
tracing = "0.1"
