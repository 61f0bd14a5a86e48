[package]
name = "fdsafe"
version = "0.1.0"
edition = "2021"
publish = false

[dependencies]
libc = "=0.2.190"

[dev-dependencies]
nix = { version = "=0.31.3", features = ["fs"] }
