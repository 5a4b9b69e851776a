[package]
name = "media_downloader"
version = "0.1.0"
edition = "2021"
publish = false

[dependencies]
colored = "3"
rand = "0.9"
rfd = "0.15"
