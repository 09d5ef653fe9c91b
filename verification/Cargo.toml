[package]
name = "otr_texture"
version = "0.1.0"
edition = "2021"
publish = false

[dependencies]
image = { version = "0.25", default-features = false, features = ["png"] }
walkdir = "2"
yaml-rust2 = "*"
zip = { version = "*", default-features = false, features = ["deflate"] }
