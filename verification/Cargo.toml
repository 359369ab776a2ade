[package]
name = "andiskaz"
version = "0.1.0"
edition = "2021"
publish = false

[dependencies]
unicode-segmentation = "1"
crossterm = "0.27"
tokio = { version = "1", features = ["full"] }
cli-clipboard = "0.4"
