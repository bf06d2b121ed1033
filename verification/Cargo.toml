[package]
name = "network"
version = "0.1.0"
edition = "2021"
publish = false

[dependencies]
futures = "=0.1.31"
log = "0.4"
parking_lot = "=0.12.5"
tokio = { version = "=0.1.22", default-features = false, features = ["timer"] }
