[package]
name = "spectral_stretch"
version = "0.1.0"
edition = "2021"
publish = false

[dependencies]
apodize = "1"
hound = "3"
rustfft = "4"
