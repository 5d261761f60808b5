[package]
name = "bluetoggle"
version = "0.1.0"
edition = "2021"
publish = false

[dependencies]
gtk4 = "*"
tokio = { version = "*", features = ["rt-multi-thread"] }
zbus = "*"
