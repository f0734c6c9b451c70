[package]
name = "sh1106_core"
version = "0.1.0"
edition = "2021"
publish = false

[dependencies]
display-interface = "*"
embedded-hal = "0.2"
