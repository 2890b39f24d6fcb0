[package]
name = "include_tt"
version = "1.0.0"
edition = "2021"
publish = false

[dependencies]
proc-macro2 = "1"
quote = "1"
syn = { version = "2", default-features = false, features = ["parsing"] }
