[package]
name = "seven_zip"
version = "0.1.0"
edition = "2021"
publish = false

[dependencies]
libc = "0.2"
lzma-sdk-sys = "*"
tokio = "0.1"
