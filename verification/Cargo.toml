[package]
name = "tiny2"
version = "0.1.0"
edition = "2021"
publish = false

[dependencies]
errno = "*"
glob = "*"
hexdump = "*"
nix = { version = "*", features = ["ioctl"] }
