[package]
name = "axis_effects"
version = "0.1.0"
edition = "2021"
publish = false

[dependencies]
micromath = "*"
