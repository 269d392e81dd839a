[package]
name = "orbis_encoder"
version = "0.1.0"
edition = "2021"
publish = false

[dependencies]
getopts = "*"
serialport = { version = "*", default-features = false }
thiserror = "*"
