[package]
name = "degenerate"
version = "0.1.0"
edition = "2021"
publish = false

[dependencies]
cairo-rs = "*"
clap = { version = "4", features = ["derive"] }
hound = "3"
image = "*"
noise = "0.7"
pbr = "*"
rustfft = "6"
