[package]
name = "asset_manager"
version = "0.1.0"
edition = "2021"
publish = false

[dependencies]
chrono = "=0.4.45"
scrypt = "=0.11.0"
json = "=0.12.4"
