[package]
name = "icon_proxy"
version = "0.1.0"
edition = "2021"
publish = false

[dependencies]
image = { version = "0.24", default-features = false, features = ["jpeg", "png", "gif"] }
worker = "*"
