[package]
name = "toolstr"
version = "0.1.0"
edition = "2021"
publish = false

[dependencies]
polars = { version = "0.32", default-features = false }
