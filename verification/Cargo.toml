[package]
name = "microdsp_demo"
version = "0.1.0"
edition = "2021"
publish = false

[dependencies]
microdsp = "*"
micromath = "*"
