[package]
name = "minidump_bn"
version = "0.1.0"
edition = "2021"
publish = false

[dependencies]
minidump = "*"
