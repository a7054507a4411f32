[package]
name = "async_atomic"
version = "0.1.0"
edition = "2021"
publish = false

[dependencies]
atomig = "*"
futures = "*"
