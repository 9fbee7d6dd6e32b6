[package]
name = "tmsadm"
version = "0.1.0"
edition = "2021"
publish = false

[dependencies]
shellexpand = "*"
path-absolutize = "*"
structopt = "*"
execute = "*"
