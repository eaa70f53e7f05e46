[package]
name = "index_workers"
version = "0.1.0"
edition = "2021"
publish = false

[dependencies]
rand = "*"
