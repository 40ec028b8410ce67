[package]
name = "sh1106"
version = "0.1.0"
edition = "2021"
publish = false

[dependencies]
embedded-graphics = "=0.6.0-alpha.2"
embedded-hal = "=0.2.7"
