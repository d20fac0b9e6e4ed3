[package]
name = "ash_dash"
version = "0.1.0"
edition = "2021"
publish = false

[dependencies]
rand = "0.4"
chroniker = "*"
