[package]
name = "derive_quickcheck"
version = "0.1.0"
edition = "2021"
publish = false

[dependencies]
heck = "*"
proc-macro2 = { version = "*", features = ["span-locations"] }
quote = "*"
syn = "*"
