[package]
name = "compile_outcome"
version = "0.1.0"
edition = "2021"
publish = false

[dependencies]
serde_json = "=1.0.154"
semver = "=1.0.28"
foundry-compilers = { version = "=0.11.6", default-features = false, features = ["async"] }
