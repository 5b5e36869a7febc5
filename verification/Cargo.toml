[package]
name = "uvfits_rip"
version = "0.1.0"
edition = "2021"
publish = false

[dependencies]
clap = { version = "=4.6.7", features = ["derive"] }
ndarray = "=0.17.2"
ndarray-npy = "=0.10.0"
fitsio-sys = { version = "=0.5.7", features = ["fitsio-src"] }
