[package]
name = "atomex"
version = "0.1.0"
edition = "2021"
publish = false

[dependencies]
funty = "2"
