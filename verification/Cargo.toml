[package]
name = "dsp_nodes"
version = "0.1.0"
edition = "2021"

[dependencies]
num-complex = "*"
numeric-array = "*"
typenum = "*"
