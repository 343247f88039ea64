[package]
name = "rs2"
version = "0.1.0"
edition = "2021"
publish = false

[dependencies]
byteorder = "1"
env_logger = "*"
log = "0.4"
