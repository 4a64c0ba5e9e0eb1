[package]
name = "blend2d_build"
version = "0.1.0"
edition = "2021"
publish = false

[dependencies]
cc = "*"
bindgen = "*"
