[package]
name = "cvi_loader"
version = "0.1.0"
edition = "2021"
publish = false

[dependencies]
crc = "3"
serialport = "4"
clap = { version = "4", features = ["derive"] }
log = "0.4"
env_logger = "0.11"
