[package]
name = "mppt_control"
version = "0.1.0"
edition = "2021"
publish = false

[dependencies]
clap = { version = "*", features = ["derive"] }
libmodbus-rs = "*"
serde = { version = "*", features = ["derive"] }
serde_json = "*"
