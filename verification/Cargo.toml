[package]
name = "huff_codegen"
version = "0.1.0"
edition = "2021"
publish = false

[dependencies]
ethers = { version = "*", default-features = false }
hex = "*"
serde = { version = "*", features = ["derive"] }
serde_json = "*"
