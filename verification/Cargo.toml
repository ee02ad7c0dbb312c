[package]
name = "ferros"
version = "0.1.0"
edition = "2021"
publish = false

[dependencies]
aarch64-cpu = "*"
