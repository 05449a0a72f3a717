[package]
name = "rxnormalizer"
version = "0.1.0"
edition = "2021"
publish = false

[dependencies]
json = "=0.12.4"
reqwest = { version = "=0.13.5", default-features = false, features = ["query"] }
tokio = { version = "=1.53.2", features = ["time"] }
