[package]
name = "webviz-core"
version = "0.1.0"
edition = "2021"
publish = false

[dependencies]
lz4_flex = { version = "0.11", features = ["frame"] }
zaplib = "*"
