[package]
name = "iggy_embedded"
version = "0.1.0"
edition = "2021"
publish = false

[dependencies]
bytes = "1"
embassy-net = { version = "*", features = ["tcp", "proto-ipv4", "medium-ethernet"] }
embassy-sync = "*"
embassy-time = "*"
