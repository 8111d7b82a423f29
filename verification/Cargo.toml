[package]
name = "iq_features"
version = "0.1.0"
edition = "2021"
publish = false

[dependencies]
anyhow = "*"
hound = "*"
plotters = "*"
rustfft = "*"
thiserror = "*"
