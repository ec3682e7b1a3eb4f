[package]
name = "gridsim"
version = "0.1.0"
edition = "2021"

[dependencies]
cursive = "=0.13.0"
syn = "=1.0.57"
