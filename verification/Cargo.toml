[package]
name = "pongxelflut"
version = "0.1.0"
edition = "2021"
publish = false

[dependencies]
fixed = "1"
cordic = "*"
anyhow = "1"
random = "*"
