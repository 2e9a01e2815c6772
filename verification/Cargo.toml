[package]
name = "simple_wayland"
version = "0.1.0"
edition = "2021"
publish = false

[dependencies]
byteorder = "1"
smithay-client-toolkit = "0.4"
