[package]
name = "ssemu"
version = "0.1.0"
edition = "2021"
publish = false

[dependencies]
baby-emulator = "=0.2.2"
clap = { version = "=4.6.7", features = ["derive"] }
colored = "=3.1.1"
serde_json = "*"
