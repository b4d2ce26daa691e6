[package]
name = "smart_lock"
version = "0.1.0"
edition = "2021"
publish = false

[dependencies]
async-lock = "3"

[dev-dependencies]
pollster = "0.4"
