[package]
name = "rem"
version = "0.1.0"
edition = "2021"
publish = false

[dependencies]
cosmic-text = "0.10"
nix = "0.26"
