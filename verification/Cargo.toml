[package]
name = "strata"
version = "0.1.0"
edition = "2021"
publish = false

[dependencies]
anyhow = "=1.0.104"
smithay = { version = "=0.7.0", default-features = false }
piccolo = "=0.3.3"
nix = { version = "=0.31.3", features = ["signal", "process"] }
