[package]
name = "eventsfx"
version = "0.1.0"
edition = "2021"
publish = false

[dependencies]
dirs = "*"
input = "*"
rodio = "*"
