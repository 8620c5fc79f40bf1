[package]
name = "earbuds"
version = "0.1.0"
edition = "2021"
publish = false

[dependencies]
galaxy_buds_live_rs = "*"
serde = { version = "1", features = ["derive"] }
serde_json = "1"
async-std = "1"
