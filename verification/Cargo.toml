[package]
name = "chili_interp"
version = "0.1.0"
edition = "2021"
publish = false

[dependencies]
ustr = "*"
colored = "2"
clap = { version = "3", features = ["derive"] }
path-absolutize = "3"
