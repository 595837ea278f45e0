[package]
name = "lvl_0"
version = "0.1.0"
edition = "2021"
publish = false

[dependencies]
macroquad = { version = "=0.4.16", features = ["audio"] }
quad-url = "=0.1.3"
