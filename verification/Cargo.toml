[package]
name = "factorio-up"
version = "0.1.0"
edition = "2021"
publish = false

[dependencies]
clap = "4"
curl = "0.4"
ring = "0.17"
tar = "0.4"
xz2 = "0.1"
