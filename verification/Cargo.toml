[package]
name = "spaza_safety_escrow"
version = "0.1.0"
edition = "2021"
publish = false

[dependencies]
chrono = "*"
clap = { version = "*", features = ["derive"] }
colored = "*"
env_logger = "*"
rand = "*"
rust_decimal = "*"
thiserror = "*"
uuid = { version = "*", features = ["v4"] }
