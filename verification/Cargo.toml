[package]
name = "cetkaik_naive_representation"
version = "0.1.0"
edition = "2021"
publish = false

[dependencies]
cetkaik_fundamental = "=1.0.0"
cetkaik_traits = "=1.1.1"
serde = { version = "=1.0.229", features = ["derive"] }
