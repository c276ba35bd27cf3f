[package]
name = "gitminer"
version = "0.1.0"
edition = "2021"
publish = false

[dependencies]
rust-crypto = "0.2"
time = "0.1"
git2 = { version = "*", default-features = false }
argparse = "0.2"
