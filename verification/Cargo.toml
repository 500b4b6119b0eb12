[package]
name = "layerfs"
version = "0.1.0"
edition = "2021"
publish = false

[dependencies]
anyhow = "*"
argh = "*"
chrono = "*"
mediameta = "*"
reflink-copy = "*"
walkdir = "*"
