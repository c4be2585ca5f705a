[package]
name = "sles_backend"
version = "0.1.0"
edition = "2021"
publish = false

[dependencies]
alto = "3"
log = "0.4"
android_logger = "*"
libc = "0.2"
opensles = "*"
