[package]
name = "kibodo"
version = "0.1.0"
edition = "2021"
publish = false

[dependencies]
iced = { version = "0.8", features = ["canvas"] }
iced_native = "0.10"
once_cell = "1"
