[package]
name = "catten"
version = "0.1.0"
edition = "2021"
publish = false

[dependencies]
hashbrown = "*"
lock_api = "*"
spin = "*"
concurrent-queue = "*"
