[package]
name = "pstr"
version = "0.1.0"
edition = "2021"
publish = false

[dependencies]
dashmap = "=6.2.1"
once_cell = "=1.21.4"
