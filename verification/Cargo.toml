[package]
name = "token_counter"
version = "0.1.0"
edition = "2021"
publish = false

[dependencies]
tiktoken-rs = "*"
structopt = "*"
