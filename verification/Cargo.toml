[package]
name = "arplus"
version = "0.1.0"
edition = "2021"
publish = false

[dependencies]
crc = "3"
fastrand = "2"
heapless = "0.8"
libm = "0.2"
