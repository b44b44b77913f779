[package]
name = "aerothesis"
version = "0.1.0"
edition = "2021"
publish = false

[dependencies]
rustfft = "6.4.1"
textplots = "0.8.7"
