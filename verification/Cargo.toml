[package]
name = "org_outline"
version = "0.1.0"
edition = "2021"
publish = false

[dependencies]
maud = "*"
orgize = { version = "0.9", features = ["syntect"] }
