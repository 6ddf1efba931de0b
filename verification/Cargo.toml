[package]
name = "azure_sdk_for_rust"
version = "0.1.0"
edition = "2021"
publish = false

[dependencies]
chrono = { version = "0.4", default-features = false, features = ["std"] }
futures = "0.1"
hyper = { version = "0.12", default-features = false }
