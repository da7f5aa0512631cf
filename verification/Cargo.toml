[package]
name = "nuki_gls"
version = "0.1.0"
edition = "2021"
publish = false

[dependencies]
gls = "*"
nuki = "*"
