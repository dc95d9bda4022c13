[package]
name = "libbeaglebone"
version = "0.5.0"
edition = "2021"
publish = false

[dependencies]
bitflags = "*"
nix = { version = "*", features = ["ioctl"] }
serialport = { version = "*", default-features = false }
