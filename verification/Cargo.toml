[package]
name = "kizubin"
version = "0.1.0"
edition = "2021"
publish = false

[dependencies]
anyhow = "1"
camino = "1"
clap = { version = "4", features = ["derive"] }
crossterm = "*"
sysinfo = "*"
unicode-segmentation = "1"
uniffi = "*"
