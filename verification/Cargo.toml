[package]
name = "rhai_repl"
version = "0.1.0"
edition = "2021"
publish = false

[dependencies]
rhai = "*"
libm = "*"
