[package]
name = "api_codegen"
version = "0.1.0"
edition = "2021"
publish = false

[dependencies]
base64 = "*"
proc-macro2 = "*"
quote = "*"
reqwest = { version = "*", default-features = false }
syn = { version = "*", features = ["full"] }
