[package]
name = "gameboy"
version = "0.1.0"
edition = "2021"
publish = false

[dependencies]
arrayvec = "0.7"
itertools = "0.12"
log = "0.4"
simplelog = "0.12"
clap = "4"
