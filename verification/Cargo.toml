[package]
name = "stoplight"
version = "0.1.0"
edition = "2021"
publish = false

[dev-dependencies]
crossbeam-utils = "0.8"
