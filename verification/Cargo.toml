[package]
name = "natspec_lint"
version = "0.1.0"
edition = "2021"
publish = false

[dependencies]
solang-parser = "0.3"
line-col = "0.2"
eyre = "0.6"
