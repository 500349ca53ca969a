[package]
name = "porcus"
version = "0.1.0"
edition = "2021"
publish = false

[dependencies]
clap = "*"
unicode-normalization = "*"
unicode-script = "*"
unicode-segmentation = "*"
