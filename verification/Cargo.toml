[package]
name = "life"
version = "0.1.0"
edition = "2021"
publish = false

[dependencies]
rand = "0.8"
libadwaita = { version = "*", features = ["v1_5"] }
gtk4 = "*"
