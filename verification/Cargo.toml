[package]
name = "csrf_guard"
version = "0.1.0"
edition = "2021"
publish = false

[dependencies]
csrf = "*"
base64 = "=0.13.1"
