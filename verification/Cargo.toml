[package]
name = "anders"
version = "1.0.0"
edition = "2021"
publish = false

[dependencies]
clap = "2"
glob = "0.3"
rustc-serialize = "0.3"
walkdir = "2"
