[package]
name = "duck"
version = "0.1.0"
edition = "2021"
publish = false

[dependencies]
waithandle = "=0.1.0"
