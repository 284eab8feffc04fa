[package]
name = "debug-here"
version = "0.2.2"
edition = "2021"
publish = false

[dependencies]
lazy_static = "1"
which = "*"
winapi = { version = "0.3", features = ["debugapi"] }
