[package]
name = "trunk"
version = "0.1.0"
edition = "2021"
publish = false

[dependencies]
anyhow = "1"
async-std = "1"
crossbeam-channel = "0.5"
indicatif = "0.15"
open = "1"
tide = "0.16"
