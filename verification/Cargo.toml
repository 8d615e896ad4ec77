[package]
name = "window_view"
version = "0.1.0"
edition = "2021"
publish = false

[dependencies]
diwata_intel = "*"
sauron = "*"
