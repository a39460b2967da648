[package]
name = "pyckitup"
version = "0.1.0"
edition = "2021"
publish = false

[dependencies]
anyhow = "=1.0.104"
quicksilver = { version = "=0.4.0", default-features = false, features = ["saving", "ttf"] }
rodio = { version = "=0.13.1", default-features = false }
rustpython-vm = "=0.3.1"
