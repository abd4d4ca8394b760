[package]
name = "raws"
version = "0.1.0"
edition = "2021"
publish = false

[dependencies]
clap = "2"
rust-ini = "0.13"
shellexpand = "*"
