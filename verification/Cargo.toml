[package]
name = "reredis"
version = "0.1.0"
edition = "2021"
publish = false

[dependencies]
futures-preview = "=0.3.0-alpha.19"
runtime = "=0.3.0-alpha.8"
