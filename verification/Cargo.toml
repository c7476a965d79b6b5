[package]
name = "star"
version = "0.1.0"
edition = "2021"
publish = false

[dependencies]
clap = "2"
flate2 = "1"
glob = "0.3"
tar = "0.4"
xz2 = "0.1"
zstd = "0.13"
