[package]
name = "random_service"
version = "0.1.0"
edition = "2021"
publish = false

[dependencies]
futures = "0.1"
hyper = "0.12"
rand = "0.5"
serde_json = "1"
