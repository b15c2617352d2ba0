[package]
name = "video_concat"
version = "0.1.0"
edition = "2021"
publish = false

[dependencies]
path_abs = "0.5"
tracing = "0.1"
