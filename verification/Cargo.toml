[package]
name = "bumpalo_thin_slice"
version = "0.1.0"
edition = "2021"
publish = false

[dependencies]
bumpalo = "*"
