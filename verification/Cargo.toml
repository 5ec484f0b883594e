[package]
name = "tl_mbox"
version = "0.1.0"
edition = "2021"
publish = false

[dependencies]
bit_field = "*"
embassy-sync = "*"
critical-section = { version = "*", features = ["std"] }
