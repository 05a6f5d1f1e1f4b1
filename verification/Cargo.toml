[package]
name = "kuzzle_sdk"
version = "0.1.0"
edition = "2021"
publish = false

[dependencies]
reqwest = { version = "0.12", default-features = false, features = ["blocking"] }

[dev-dependencies]
mockito = "0.31"
