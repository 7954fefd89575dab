[package]
name = "rwmap"
version = "0.1.0"
edition = "2021"
publish = false

[dependencies]
mlua = { version = "=0.12.2", features = ["luau", "async"] }
