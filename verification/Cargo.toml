[package]
name = "ldk_server_cli"
version = "0.1.0"
edition = "2021"
publish = false

[dependencies]
hex-conservative = "*"
