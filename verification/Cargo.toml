[package]
name = "snake"
version = "0.1.0"
edition = "2021"
publish = false

[dependencies]
rand = "=0.7.3"
tetra = { version = "=0.5.8", default-features = false, features = ["font_ttf"] }
