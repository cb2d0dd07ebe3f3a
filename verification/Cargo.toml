[package]
name = "libre_wallet"
version = "0.1.0"
edition = "2021"
publish = false

[dependencies]
chrono = "=0.4.45"
eframe = { version = "0.23", default-features = false, features = ["glow", "x11"] }
rand = "=0.8.8"
serde = { version = "=1.0.229", features = ["derive"] }
