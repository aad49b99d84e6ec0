[package]
name = "ape"
version = "0.1.0"
edition = "2021"
publish = false

[dependencies]
linux-raw-sys = "=0.12.1"
