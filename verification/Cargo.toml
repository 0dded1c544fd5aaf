[package]
name = "mapper_influence"
version = "0.1.0"
edition = "2021"
publish = false

[dependencies]
chrono = "0.4"
jwt = "0.16"
rand_chacha = "0.3"
rand_core = { version = "0.6", features = ["getrandom"] }
serde_json = "1"
