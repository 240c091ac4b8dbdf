[package]
name = "pic_emulator"
version = "0.1.0"
edition = "2021"
publish = false

[dependencies]
hertz = "*"
log = "0.4"
simple_logger = "*"

[dev-dependencies]
regex = "1"
