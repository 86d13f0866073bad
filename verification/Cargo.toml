[package]
name = "entries"
version = "0.1.0"
edition = "2021"
publish = false

[dependencies]
sp-io = "=49.0.0"
