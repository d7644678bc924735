[package]
name = "dyn-loader"
version = "0.1.0"
edition = "2021"
publish = false

[dependencies]
anyhow = "1"
libloading = "0.8"
