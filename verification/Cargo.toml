[package]
name = "treasury"
version = "0.1.0"
edition = "2021"
publish = false

[dependencies]
alloy-primitives = { version = "*", features = ["getrandom", "serde"] }
serde = { version = "1", features = ["derive"] }
thiserror = "*"
