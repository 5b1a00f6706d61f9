[package]
name = "typed_value"
version = "0.1.0"
edition = "2021"
publish = false

[dev-dependencies]
anyhow = "1"
once_cell = "1"
regex = "1"
