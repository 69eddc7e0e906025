[package]
name = "gas_optimizer"
version = "0.1.0"
edition = "2021"
publish = false

[dependencies]
chrono = { version = "=0.4.45", default-features = false, features = ["now"] }
num-bigint = "=0.4.8"
num-integer = "=0.1.47"
serde = { version = "=1.0.229", features = ["derive"] }
serde_json = "=1.0.154"
