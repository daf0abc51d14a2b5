[package]
name = "eccfs_snapshotter"
version = "0.1.0"
edition = "2021"
publish = false

[dependencies]
hex = "=0.4.3"
anyhow = "=1.0.104"
fs_extra = "*"
nix = { version = "=0.31.3", features = ["mount"] }
getrandom = "*"
