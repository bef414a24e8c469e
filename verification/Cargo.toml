[package]
name = "samplify"
version = "0.1.0"
edition = "2021"
publish = false

[dependencies]
rand = "0.8"
serde_json = "1"
syn = "2"
quote = "1"
proc-macro2 = "1"
