[package]
name = "socks"
version = "0.2.1"
edition = "2021"
publish = false

[dependencies]
byteorder = "1"
libc = "0.2"
hyper = { version = "0.9", default-features = false }
