[package]
name = "cross_shell"
version = "0.1.0"
edition = "2021"
publish = false

[dependencies]
atty = "0.2"
owo-colors = { version = "3", features = ["supports-colors"] }
supports-color = "1"
