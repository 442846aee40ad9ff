[package]
name = "bs_options"
version = "0.1.0"
edition = "2021"
publish = false

[dependencies]
quant-opts = "=0.1.0"
num-traits = "0.2"
