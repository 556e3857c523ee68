[package]
name = "learn_thai"
version = "0.1.0"
edition = "2021"
publish = false

[dependencies]
rodio = "0.19"
