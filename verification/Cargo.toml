[package]
name = "error_code_derive"
version = "0.1.0"
edition = "2021"
publish = false

[dependencies]
syn = "*"
proc-macro2 = "*"
quote = "*"
