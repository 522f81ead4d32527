[package]
name = "gbr"
version = "0.1.0"
edition = "2021"
publish = false

[dependencies]
structopt = "0.3"
ggez = "0.5"
cpal = "0.13"
