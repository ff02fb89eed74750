[package]
name = "qos_core"
version = "0.1.0"
edition = "2021"
publish = false

[dependencies]
itoa = "1"
log = "0.4"
libc = "0.2"
rustix = { version = "1", features = ["fs", "event", "stdio"] }
android_logger = "*"
