[package]
name = "yazi-pick-ax"
version = "0.1.0"
edition = "2021"
publish = false

[dependencies]
core-foundation = "*"
core-graphics = "*"
objc = "*"
