[package]
name = "reznez"
version = "0.1.0"
edition = "2021"
publish = false

[dependencies]
itertools = "*"
roxmltree = "*"
structopt = "0.3"
