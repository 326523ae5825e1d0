[package]
name = "fgp"
version = "0.1.0"
edition = "2021"
publish = false

[dependencies]
anyhow = "1"
chrono = "0.4"
colored = "2"
fgp-daemon = "*"
serde_json = "1"
shellexpand = "3"
