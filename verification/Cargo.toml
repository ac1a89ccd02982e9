[package]
name = "eps_api"
version = "0.1.0"
edition = "2021"
publish = false

[dependencies]
failure = "0.1.8"
serde = { version = "1", features = ["derive"] }
strum = "0.24"
strum_macros = "0.24"
