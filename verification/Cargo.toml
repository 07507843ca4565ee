[package]
name = "connect_timeout"
version = "0.1.0"
edition = "2021"
publish = false

[dependencies]
nix = { version = "*", features = ["socket", "net", "fs", "time", "poll"] }
