[package]
name = "unwrapped"
version = "0.1.0"
edition = "2021"
publish = false

[dependencies]
ident_case = "1"
proc-macro2 = "1"
quote = "1"
syn = { version = "2", features = ["full", "extra-traits"] }
