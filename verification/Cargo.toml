[package]
name = "proto_mapper"
version = "0.1.0"
edition = "2021"
publish = false

[dependencies]
heck = "*"
syn = "*"
quote = "*"
proc-macro2 = "*"
darling = "*"
