[package]
name = "derive_enum_from_into"
version = "0.2.0"
edition = "2021"
publish = false

[dependencies]
proc-macro2 = "1"
quote = "1"
syn = "2"
