[package]
name = "snek"
version = "0.1.0"
edition = "2021"
publish = false

[dependencies]
recs = "=2.0.1"
rand = "=0.9.5"
