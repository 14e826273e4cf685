[package]
name = "avr_echo"
version = "0.1.0"
edition = "2021"
publish = false

[dependencies]
futures = { version = "0.3", default-features = false }
ruduino = "*"
