[package]
name = "rocket_uuid"
version = "0.1.0"
edition = "2021"
publish = false

[dependencies]
uuid = "0.7"
rocket = { version = "0.5", default-features = false }
