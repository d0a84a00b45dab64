[package]
name = "theatremix-remote-display"
version = "0.1.0"
edition = "2021"
publish = false

[dependencies]
rosc = "0.11"
dirs = "5"
image = { version = "0.25", default-features = false, features = ["png"] }
