[package]
name = "regex_capture"
version = "0.1.0"
edition = "2021"
publish = false

[dependencies]
regex = "1"
syn = "2"
quote = "1"
proc-macro2 = "1"
