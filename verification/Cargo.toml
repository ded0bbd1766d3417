[package]
name = "eldenring"
version = "0.1.0"
edition = "2021"
publish = false

[dependencies]
encoding_rs = "0.8"
pelite = "0.10"
thiserror = "2"
