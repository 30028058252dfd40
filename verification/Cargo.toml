[package]
name = "pi_natives"
version = "0.1.0"
edition = "2021"
publish = false

[dependencies]
image = { version = "=0.25.10", default-features = false, features = ["png", "jpeg", "gif", "webp"] }
html-to-markdown-rs = "=3.17.2"
